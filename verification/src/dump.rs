//! `dump_val` and `dump_stack`: describing values on the Lua stack.
use vstd::prelude::*;
use crate::api::{answered, fits, is_true, lua_boolean, Answer, ApiCall, Exchange, Failure, Op, Reply, Step, Tape};
use crate::text::{decode_lossy_opt, lossy_opt, text_view};
use crate::typename::{type_name_conversation, TypeName};

verus! {

/// What was read of a value, by its type name.
#[derive(Debug, Clone, PartialEq)]
pub enum Shown {
    /// A "string": its contents, if `lua_tolstring` gave any, decoded lossily.
    Text(Option<String>),
    /// A "boolean".
    Boolean(bool),
    /// A "number", by the bits of the `f64`.
    Number(u64),
    /// Any other type: only its name is shown.
    Plain,
}

/// The view of a [`Shown`].
pub enum ShownV {
    Text(Option<Seq<char>>),
    Boolean(bool),
    Number(u64),
    Plain,
}

impl View for Shown {
    type V = ShownV;

    open spec fn view(&self) -> ShownV {
        match self {
            Shown::Text(t) => ShownV::Text(text_view(*t)),
            Shown::Boolean(b) => ShownV::Boolean(*b),
            Shown::Number(n) => ShownV::Number(*n),
            Shown::Plain => ShownV::Plain,
        }
    }
}

/// One line of a stack dump: a stack index, the name of its value's type, and
/// what was read of the value.
#[derive(Debug, Clone, PartialEq)]
pub struct StackEntry {
    pub index: i32,
    pub kind: String,
    pub value: Shown,
}

/// The view of a [`StackEntry`].
pub struct EntryV {
    pub index: i32,
    pub kind: Seq<char>,
    pub value: ShownV,
}

impl View for StackEntry {
    type V = EntryV;

    open spec fn view(&self) -> EntryV {
        EntryV { index: self.index, kind: self.kind@, value: self.value@ }
    }
}

/// Whether a value of the type named `kind` is read and shown.
pub open spec fn shows_value(kind: Seq<char>) -> bool {
    kind == "string"@ || kind == "boolean"@ || kind == "number"@
}

/// The number of calls made to describe a value of the type named `kind`.
pub open spec fn inspect_len(kind: Seq<char>) -> int {
    if shows_value(kind) {
        8
    } else {
        5
    }
}

/// The complete conversation that describes the value at `index` as `entry`:
/// its type code, the type's name (by `lua_type_name`), and for a string,
/// boolean or number a copy pushed, read at -1 and popped.
pub open spec fn inspect_conversation(index: i32, log: Seq<Exchange>, entry: EntryV) -> bool {
    let push = Exchange { call: Op::PushValue(index), answer: Answer::Nothing };
    let pop = Exchange { call: Op::SetTop(-2i32), answer: Answer::Nothing };
    &&& entry.index == index
    &&& log.len() == inspect_len(entry.kind)
    &&& log[0].call == Op::Type(index)
    &&& log[0].answer matches Answer::Int(t) && type_name_conversation(
        t,
        log.subrange(1, 5),
        entry.kind,
    )
    &&& if entry.kind == "string"@ {
        &&& log[5] == push
        &&& log[6].call == Op::ToLString(-1i32)
        &&& log[6].answer matches Answer::Text(o) && entry.value == ShownV::Text(lossy_opt(o))
        &&& log[7] == pop
    } else if entry.kind == "boolean"@ {
        &&& log[5] == push
        &&& log[6].call == Op::ToBoolean(-1i32)
        &&& log[6].answer matches Answer::Int(b) && entry.value == ShownV::Boolean(is_true(b))
        &&& log[7] == pop
    } else if entry.kind == "number"@ {
        &&& log[5] == push
        &&& log[6].call == Op::ToNumber(-1i32)
        &&& log[6].answer matches Answer::Number(bits) && entry.value == ShownV::Number(bits)
        &&& log[7] == pop
    } else {
        entry.value == ShownV::Plain
    }
}

/// The conversation that describes one stack value (shared by `dump_val` and
/// each line of `dump_stack`).
pub struct Inspect {
    index: i32,
    stage: u8,
    type_code: i32,
    sub: TypeName,
    kind: String,
    reading: u8,
    value: Shown,
    tape: Tape,
}

impl Inspect {
    pub closed spec fn index(&self) -> i32 {
        self.index
    }

    /// The exchanges so far.
    pub closed spec fn log(&self) -> Seq<Exchange> {
        self.tape.log()
    }

    /// The call awaiting its reply.
    pub closed spec fn pending(&self) -> Op {
        self.tape.pending()
    }

    /// A bound on the replies still to come.
    pub closed spec fn fuel(&self) -> nat {
        if self.stage == 0 {
            9
        } else if self.stage == 1 {
            4 + self.sub.fuel()
        } else {
            (5 - self.stage) as nat
        }
    }

    /// The read call for the value's type: 0 string, 1 boolean, 2 number.
    closed spec fn read_op(&self) -> Op {
        if self.reading == 0 {
            Op::ToLString(-1i32)
        } else if self.reading == 1 {
            Op::ToBoolean(-1i32)
        } else {
            Op::ToNumber(-1i32)
        }
    }

    /// The reading that the type named `kind` calls for.
    closed spec fn reading_fits(&self) -> bool {
        &&& self.reading < 3
        &&& self.reading == 0 <==> self.kind@ == "string"@
        &&& self.reading == 1 <==> (self.kind@ != "string"@ && self.kind@ == "boolean"@)
        &&& self.reading == 2 <==> (self.kind@ != "string"@ && self.kind@ != "boolean"@
            && self.kind@ == "number"@)
    }

    /// The value read matches the answer to the read call.
    closed spec fn value_fits(&self, answer: Answer) -> bool {
        if self.reading == 0 {
            answer matches Answer::Text(o) && self.value@ == ShownV::Text(lossy_opt(o))
        } else if self.reading == 1 {
            answer matches Answer::Int(b) && self.value@ == ShownV::Boolean(is_true(b))
        } else {
            answer matches Answer::Number(bits) && self.value@ == ShownV::Number(bits)
        }
    }

    /// The conversation is under way: its log begins a complete conversation and
    /// the pending call is the next one in it.
    pub closed spec fn wf(&self) -> bool {
        let log = self.tape.log();
        let pending = self.tape.pending();
        let first = Exchange { call: Op::Type(self.index), answer: Answer::Int(self.type_code) };
        &&& self.stage < 5
        &&& self.stage == 0 ==> log.len() == 0 && pending == Op::Type(self.index)
        &&& self.stage == 1 ==> {
            &&& self.sub.wf()
            &&& self.sub.type_id() == self.type_code
            &&& log == seq![first] + self.sub.log()
            &&& pending == self.sub.pending()
        }
        &&& self.stage >= 2 ==> {
            &&& log.len() == self.stage + 3
            &&& log[0] == first
            &&& type_name_conversation(self.type_code, log.subrange(1, 5), self.kind@)
            &&& self.reading_fits()
        }
        &&& self.stage == 2 ==> pending == Op::PushValue(self.index)
        &&& self.stage >= 3 ==> log[5] == Exchange {
            call: Op::PushValue(self.index),
            answer: Answer::Nothing,
        }
        &&& self.stage == 3 ==> pending == self.read_op()
        &&& self.stage == 4 ==> {
            &&& log[6].call == self.read_op()
            &&& self.value_fits(log[6].answer)
            &&& pending == Op::SetTop(-2i32)
        }
    }

    /// Starts describing the value at `index`; returns the first call.
    pub fn start(index: i32) -> (r: (Inspect, ApiCall))
        ensures
            r.0.wf(),
            r.0.index() == index,
            r.0.log() == Seq::<Exchange>::empty(),
            r.0.pending() == r.1@,
            r.0.fuel() == 9,
            r.1@ == Op::Type(index),
    {
        let first = ApiCall::Type(index);
        let tape = Tape::new(&first);
        let (sub, _) = TypeName::start(0);
        (
            Inspect {
                index,
                stage: 0,
                type_code: 0,
                sub,
                kind: String::new(),
                reading: 0,
                value: Shown::Plain,
                tape,
            },
            first,
        )
    }

    /// Hands in the reply to the pending call; returns what comes next.
    pub fn resume(&mut self, reply: Reply) -> (step: Step<StackEntry>)
        requires
            old(self).wf(),
        ensures
            final(self).index() == old(self).index(),
            match step {
                Step::Call(c) => {
                    &&& final(self).wf()
                    &&& final(self).pending() == c@
                    &&& final(self).log() == answered(old(self).log(), old(self).pending(), reply@)
                    &&& final(self).fuel() < old(self).fuel()
                },
                Step::Done(entry) => inspect_conversation(
                    old(self).index(),
                    answered(old(self).log(), old(self).pending(), reply@),
                    entry@,
                ),
                Step::Panic(_) => false,
                Step::Fault => !fits(old(self).pending(), reply@),
            },
    {
        let ghost old_log = self.tape.log();
        let ghost log = answered(old_log, self.tape.pending(), reply@);
        if self.stage == 0 {
            match reply {
                Reply::Int(t) => {
                    let (sub, next) = TypeName::start(t);
                    self.tape.record(&reply);
                    self.tape.expect(&next);
                    self.type_code = t;
                    self.sub = sub;
                    self.stage = 1;
                    assert(self.tape.log() =~= seq![
                        Exchange { call: Op::Type(self.index), answer: Answer::Int(t) },
                    ] + self.sub.log());
                    Step::Call(next)
                },
                _ => Step::Fault,
            }
        } else if self.stage == 1 {
            self.tape.record(&reply);
            let ghost sub_log = self.sub.log();
            let ghost sub_pending = self.sub.pending();
            let first = Exchange { call: Op::Type(self.index), answer: Answer::Int(self.type_code) };
            assert(answered(seq![first] + sub_log, sub_pending, reply@) =~= seq![first] + answered(
                sub_log,
                sub_pending,
                reply@,
            ));
            match self.sub.resume(reply) {
                Step::Call(c) => {
                    self.tape.expect(&c);
                    Step::Call(c)
                },
                Step::Done(name) => {
                    assert(self.tape.log().subrange(1, 5) =~= answered(sub_log, sub_pending, reply@));
                    self.kind = name;
                    if self.kind == String::from_str("string") {
                        self.reading = 0;
                    } else if self.kind == String::from_str("boolean") {
                        self.reading = 1;
                    } else if self.kind == String::from_str("number") {
                        self.reading = 2;
                    } else {
                        return Step::Done(
                            StackEntry { index: self.index, kind: self.kind.clone(), value: Shown::Plain },
                        );
                    }
                    let next = ApiCall::PushValue(self.index);
                    self.tape.expect(&next);
                    self.stage = 2;
                    Step::Call(next)
                },
                Step::Panic(f) => Step::Panic(f),
                Step::Fault => Step::Fault,
            }
        } else if self.stage == 2 {
            match reply {
                Reply::Nothing => {
                    let next = if self.reading == 0 {
                        ApiCall::ToLString(-1)
                    } else if self.reading == 1 {
                        ApiCall::ToBoolean(-1)
                    } else {
                        ApiCall::ToNumber(-1)
                    };
                    self.tape.record(&reply);
                    self.tape.expect(&next);
                    self.stage = 3;
                    Step::Call(next)
                },
                _ => Step::Fault,
            }
        } else if self.stage == 3 {
            let value = if self.reading == 0 {
                match &reply {
                    Reply::Text(o) => Shown::Text(decode_lossy_opt(o)),
                    _ => {
                        return Step::Fault;
                    },
                }
            } else if self.reading == 1 {
                match &reply {
                    Reply::Int(b) => Shown::Boolean(lua_boolean(*b)),
                    _ => {
                        return Step::Fault;
                    },
                }
            } else {
                match &reply {
                    Reply::Number(bits) => Shown::Number(*bits),
                    _ => {
                        return Step::Fault;
                    },
                }
            };
            let next = ApiCall::SetTop(-2);
            self.tape.record(&reply);
            self.tape.expect(&next);
            self.value = value;
            self.stage = 4;
            Step::Call(next)
        } else {
            match reply {
                Reply::Nothing => {
                    let value = match &self.value {
                        Shown::Text(t) => Shown::Text(t.clone()),
                        Shown::Boolean(b) => Shown::Boolean(*b),
                        Shown::Number(n) => Shown::Number(*n),
                        Shown::Plain => Shown::Plain,
                    };
                    Step::Done(StackEntry { index: self.index, kind: self.kind.clone(), value })
                },
                _ => Step::Fault,
            }
        }
    }
}

/// What `dump_val` renders, before formatting.
#[derive(Debug, Clone, PartialEq)]
pub enum Dumped {
    /// A string value (formatted with `{:?}`).
    Text(String),
    /// A boolean value.
    Boolean(bool),
    /// A number value, by the bits of the `f64`.
    Number(u64),
    /// Any other value: the name of its type.
    Kind(String),
}

/// The view of a [`Dumped`].
pub enum DumpedV {
    Text(Seq<char>),
    Boolean(bool),
    Number(u64),
    Kind(Seq<char>),
}

impl View for Dumped {
    type V = DumpedV;

    open spec fn view(&self) -> DumpedV {
        match self {
            Dumped::Text(s) => DumpedV::Text(s@),
            Dumped::Boolean(b) => DumpedV::Boolean(*b),
            Dumped::Number(n) => DumpedV::Number(*n),
            Dumped::Kind(k) => DumpedV::Kind(k@),
        }
    }
}

/// How `dump_val` renders a described value: `None` where it panics, a string
/// that `lua_tolstring` could not read.
pub open spec fn dumped_of(entry: EntryV) -> Option<DumpedV> {
    match entry.value {
        ShownV::Text(Some(s)) => Some(DumpedV::Text(s)),
        ShownV::Text(None) => None,
        ShownV::Boolean(b) => Some(DumpedV::Boolean(b)),
        ShownV::Number(n) => Some(DumpedV::Number(n)),
        ShownV::Plain => Some(DumpedV::Kind(entry.kind)),
    }
}

/// The complete conversation of `dump_val(index)` that renders `out` (`None`:
/// it panics).
pub open spec fn dump_val_conversation(index: i32, log: Seq<Exchange>, out: Option<DumpedV>) -> bool {
    exists|entry: EntryV| #[trigger] inspect_conversation(index, log, entry) && dumped_of(entry) == out
}

/// The conversation of `dump_val`.
pub struct DumpVal {
    inner: Inspect,
}

impl DumpVal {
    pub closed spec fn index(&self) -> i32 {
        self.inner.index()
    }

    /// The exchanges so far.
    pub closed spec fn log(&self) -> Seq<Exchange> {
        self.inner.log()
    }

    /// The call awaiting its reply.
    pub closed spec fn pending(&self) -> Op {
        self.inner.pending()
    }

    /// A bound on the replies still to come.
    pub closed spec fn fuel(&self) -> nat {
        self.inner.fuel()
    }

    /// The conversation is under way: its log begins a complete conversation and
    /// the pending call is the next one in it.
    pub closed spec fn wf(&self) -> bool {
        self.inner.wf()
    }

    /// Starts `dump_val(index)`; returns the first call.
    pub fn start(index: i32) -> (r: (DumpVal, ApiCall))
        ensures
            r.0.wf(),
            r.0.index() == index,
            r.0.log() == Seq::<Exchange>::empty(),
            r.0.pending() == r.1@,
            r.1@ == Op::Type(index),
    {
        let (inner, first) = Inspect::start(index);
        (DumpVal { inner }, first)
    }

    /// Hands in the reply to the pending call; returns what comes next.
    pub fn resume(&mut self, reply: Reply) -> (step: Step<Dumped>)
        requires
            old(self).wf(),
        ensures
            final(self).index() == old(self).index(),
            match step {
                Step::Call(c) => {
                    &&& final(self).wf()
                    &&& final(self).pending() == c@
                    &&& final(self).log() == answered(old(self).log(), old(self).pending(), reply@)
                    &&& final(self).fuel() < old(self).fuel()
                },
                Step::Done(d) => dump_val_conversation(
                    old(self).index(),
                    answered(old(self).log(), old(self).pending(), reply@),
                    Some(d@),
                ),
                Step::Panic(f) => f == Failure::ValueNotString && dump_val_conversation(
                    old(self).index(),
                    answered(old(self).log(), old(self).pending(), reply@),
                    None,
                ),
                Step::Fault => !fits(old(self).pending(), reply@),
            },
    {
        match self.inner.resume(reply) {
            Step::Call(c) => Step::Call(c),
            Step::Done(entry) => {
                let ghost e = entry@;
                let out = match entry.value {
                    Shown::Text(Some(s)) => Dumped::Text(s),
                    Shown::Text(None) => {
                        return Step::Panic(Failure::ValueNotString);
                    },
                    Shown::Boolean(b) => Dumped::Boolean(b),
                    Shown::Number(n) => Dumped::Number(n),
                    Shown::Plain => Dumped::Kind(entry.kind),
                };
                assert(dumped_of(e) == Some(out@));
                Step::Done(out)
            },
            Step::Panic(f) => Step::Panic(f),
            Step::Fault => Step::Fault,
        }
    }
}

/// The result of `dump_stack`: the stack size it read and one entry per value,
/// bottom first.
#[derive(Debug, Clone, PartialEq)]
pub struct StackDump {
    pub size: i32,
    pub entries: Vec<StackEntry>,
}

/// The views of the entries.
pub open spec fn entries_view(entries: Seq<StackEntry>) -> Seq<EntryV> {
    entries.map_values(|e: StackEntry| e@)
}

/// `log` describes the values at indices 1, 2, ... as `entries`, one after the other.
pub open spec fn entries_conversation(log: Seq<Exchange>, entries: Seq<EntryV>) -> bool
    decreases entries.len(),
{
    if entries.len() == 0 {
        log.len() == 0
    } else {
        let last = entries.last();
        let cut = log.len() - inspect_len(last.kind);
        &&& cut >= 0
        &&& entries_conversation(log.take(cut), entries.drop_last())
        &&& inspect_conversation(entries.len() as i32, log.skip(cut), last)
    }
}

/// The complete conversation of `dump_stack` that yields `size` and `entries`:
/// read the top, then describe each value from index 1 up to it.
pub open spec fn dump_stack_conversation(log: Seq<Exchange>, size: i32, entries: Seq<EntryV>) -> bool {
    &&& log.len() >= 1
    &&& log[0] == Exchange { call: Op::GetTop, answer: Answer::Int(size) }
    &&& size >= 0
    &&& entries.len() == size
    &&& entries_conversation(log.skip(1), entries)
}

proof fn entries_extend(done: Seq<Exchange>, entries: Seq<EntryV>, seg: Seq<Exchange>, e: EntryV)
    requires
        entries_conversation(done, entries),
        inspect_conversation((entries.len() + 1) as i32, seg, e),
    ensures
        entries_conversation(done + seg, entries.push(e)),
{
    let all = done + seg;
    let es = entries.push(e);
    assert(es.drop_last() =~= entries);
    assert(all.take(done.len() as int) =~= done);
    assert(all.skip(done.len() as int) =~= seg);
}

/// An upper bound on the calls of a whole stack dump.
pub open spec fn dump_fuel() -> nat {
    10 * 0x8000_0000
}

/// The conversation of `dump_stack`.
pub struct DumpStack {
    stage: u8,
    size: i32,
    current: i32,
    sub: Inspect,
    entries: Vec<StackEntry>,
    done: Ghost<Seq<Exchange>>,
    tape: Tape,
}

impl DumpStack {
    /// The exchanges so far.
    pub closed spec fn log(&self) -> Seq<Exchange> {
        self.tape.log()
    }

    /// The call awaiting its reply.
    pub closed spec fn pending(&self) -> Op {
        self.tape.pending()
    }

    /// A bound on the replies still to come.
    pub closed spec fn fuel(&self) -> nat {
        if self.stage == 0 {
            dump_fuel()
        } else {
            (10 * (self.size - self.current) + self.sub.fuel()) as nat
        }
    }

    /// The conversation is under way: its log begins a complete conversation and
    /// the pending call is the next one in it.
    pub closed spec fn wf(&self) -> bool {
        let log = self.tape.log();
        let pending = self.tape.pending();
        &&& self.stage < 2
        &&& self.stage == 0 ==> log.len() == 0 && pending == Op::GetTop
        &&& self.stage == 1 ==> {
            &&& 1 <= self.current <= self.size
            &&& self.entries@.len() == self.current - 1
            &&& log == seq![Exchange { call: Op::GetTop, answer: Answer::Int(self.size) }]
                + self.done@ + self.sub.log()
            &&& entries_conversation(self.done@, entries_view(self.entries@))
            &&& self.sub.wf()
            &&& self.sub.index() == self.current
            &&& self.sub.fuel() <= 9
            &&& pending == self.sub.pending()
        }
    }

    /// Starts `dump_stack`; returns the first call.
    pub fn start() -> (r: (DumpStack, ApiCall))
        ensures
            r.0.wf(),
            r.0.log() == Seq::<Exchange>::empty(),
            r.0.pending() == r.1@,
            r.1@ == Op::GetTop,
    {
        let first = ApiCall::GetTop;
        let tape = Tape::new(&first);
        let (sub, _) = Inspect::start(1);
        (
            DumpStack {
                stage: 0,
                size: 0,
                current: 0,
                sub,
                entries: Vec::new(),
                done: Ghost(Seq::empty()),
                tape,
            },
            first,
        )
    }

    /// Hands in the reply to the pending call; returns what comes next.
    pub fn resume(&mut self, reply: Reply) -> (step: Step<StackDump>)
        requires
            old(self).wf(),
        ensures
            match step {
                Step::Call(c) => {
                    &&& final(self).wf()
                    &&& final(self).pending() == c@
                    &&& final(self).log() == answered(old(self).log(), old(self).pending(), reply@)
                    &&& final(self).fuel() < old(self).fuel()
                },
                Step::Done(d) => dump_stack_conversation(
                    answered(old(self).log(), old(self).pending(), reply@),
                    d.size,
                    entries_view(d.entries@),
                ),
                Step::Panic(_) => false,
                Step::Fault => !fits(old(self).pending(), reply@),
            },
    {
        if self.stage == 0 {
            match reply {
                Reply::Int(n) => {
                    if n < 0 {
                        return Step::Fault;
                    }
                    self.tape.record(&reply);
                    let ghost log = self.tape.log();
                    if n == 0 {
                        assert(log.skip(1) =~= Seq::<Exchange>::empty());
                        let entries: Vec<StackEntry> = Vec::new();
                        assert(entries_view(entries@) =~= Seq::<EntryV>::empty());
                        return Step::Done(StackDump { size: 0, entries });
                    }
                    let (sub, next) = Inspect::start(1);
                    self.tape.expect(&next);
                    self.size = n;
                    self.current = 1;
                    self.sub = sub;
                    self.entries = Vec::new();
                    self.done = Ghost(Seq::empty());
                    self.stage = 1;
                    assert(entries_view(self.entries@) =~= Seq::<EntryV>::empty());
                    assert(self.tape.log() =~= seq![
                        Exchange { call: Op::GetTop, answer: Answer::Int(self.size) },
                    ] + self.done@ + self.sub.log());
                    Step::Call(next)
                },
                _ => Step::Fault,
            }
        } else {
            let ghost head = seq![Exchange { call: Op::GetTop, answer: Answer::Int(self.size) }];
            let ghost sub_log = self.sub.log();
            let ghost sub_pending = self.sub.pending();
            let ghost seg = answered(sub_log, sub_pending, reply@);
            self.tape.record(&reply);
            assert(self.tape.log() =~= head + self.done@ + seg);
            match self.sub.resume(reply) {
                Step::Call(c) => {
                    self.tape.expect(&c);
                    Step::Call(c)
                },
                Step::Done(entry) => {
                    let ghost old_entries = entries_view(self.entries@);
                    proof {
                        entries_extend(self.done@, old_entries, seg, entry@);
                    }
                    self.entries.push(entry);
                    assert(entries_view(self.entries@) =~= old_entries.push(entry@));
                    self.done = Ghost(self.done@ + seg);
                    if self.current == self.size {
                        assert(self.tape.log().skip(1) =~= self.done@);
                        let mut entries = Vec::new();
                        std::mem::swap(&mut entries, &mut self.entries);
                        return Step::Done(StackDump { size: self.size, entries });
                    }
                    self.current = self.current + 1;
                    let (sub, next) = Inspect::start(self.current);
                    self.sub = sub;
                    self.tape.expect(&next);
                    assert(self.tape.log() =~= head + self.done@ + self.sub.log());
                    Step::Call(next)
                },
                Step::Panic(f) => Step::Panic(f),
                Step::Fault => Step::Fault,
            }
        }
    }
}

} // verus!
