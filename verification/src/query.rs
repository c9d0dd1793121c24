//! The short conversations: creating a state, reading strings and type names,
//! type tests, boolean arguments, loading chunks and debug lookups.
use vstd::prelude::*;
use crate::api::{answered, fits, is_true, lua_boolean, quiet, Answer, ApiCall, Exchange, Op, Reply, Step, Tape};
use crate::consts::{LUA_TBOOLEAN, LUA_TNIL, LUA_TNONE};
use crate::text::{decode_lossy, decode_lossy_opt, lossy_opt, text_view, utf8_lossy};

verus! {

/// The complete conversation of `LuaState::new`: `luaL_newstate`, then
/// `luaL_openlibs` on what it returned; `created` is whether the state is non-null.
pub open spec fn new_state_conversation(log: Seq<Exchange>, created: bool) -> bool {
    log == seq![Exchange { call: Op::NewState, answer: Answer::Pointer(created) }, quiet(Op::OpenLibs)]
}

/// The conversation of `LuaState::new`.
pub struct NewState {
    stage: u8,
    created: bool,
    tape: Tape,
}

impl NewState {
    /// The exchanges so far.
    pub closed spec fn log(&self) -> Seq<Exchange> {
        self.tape.log()
    }

    /// The call awaiting its reply.
    pub closed spec fn pending(&self) -> Op {
        self.tape.pending()
    }

    /// A bound on the replies still to come.
    pub closed spec fn fuel(&self) -> nat {
        (2 - self.stage) as nat
    }

    /// The conversation is under way: its log begins a complete conversation and
    /// the pending call is the next one in it.
    pub closed spec fn wf(&self) -> bool {
        &&& self.stage < 2
        &&& self.stage == 0 ==> self.tape.log().len() == 0 && self.tape.pending() == Op::NewState
        &&& self.stage == 1 ==> self.tape.log() == seq![
            Exchange { call: Op::NewState, answer: Answer::Pointer(self.created) },
        ] && self.tape.pending() == Op::OpenLibs
    }

    /// Starts creating a Lua state; returns the first call.
    pub fn start() -> (r: (NewState, ApiCall))
        ensures
            r.0.wf(),
            r.0.log() == Seq::<Exchange>::empty(),
            r.0.pending() == r.1@,
            r.1@ == Op::NewState,
    {
        let first = ApiCall::NewState;
        let tape = Tape::new(&first);
        (NewState { stage: 0, created: false, tape }, first)
    }

    /// Hands in the reply to the pending call; returns what comes next, and at
    /// the end whether a state was created.
    pub fn resume(&mut self, reply: Reply) -> (step: Step<bool>)
        requires
            old(self).wf(),
        ensures
            match step {
                Step::Call(c) => {
                    &&& final(self).wf()
                    &&& final(self).pending() == c@
                    &&& final(self).log() == answered(old(self).log(), old(self).pending(), reply@)
                    &&& final(self).fuel() < old(self).fuel()
                },
                Step::Done(created) => new_state_conversation(
                    answered(old(self).log(), old(self).pending(), reply@),
                    created,
                ),
                Step::Panic(_) => false,
                Step::Fault => !fits(old(self).pending(), reply@),
            },
    {
        self.tape.record(&reply);
        if self.stage == 0 {
            match reply {
                Reply::Pointer(p) => {
                    self.created = p;
                    self.stage = 1;
                    assert(self.tape.log() =~= seq![
                        Exchange { call: Op::NewState, answer: Answer::Pointer(p) },
                    ]);
                    let next = ApiCall::OpenLibs;
                    self.tape.expect(&next);
                    Step::Call(next)
                },
                _ => Step::Fault,
            }
        } else {
            match reply {
                Reply::Nothing => {
                    assert(self.tape.log() =~= seq![
                        Exchange { call: Op::NewState, answer: Answer::Pointer(self.created) },
                        quiet(Op::OpenLibs),
                    ]);
                    Step::Done(self.created)
                },
                _ => Step::Fault,
            }
        }
    }
}

/// The call that reads the value at `index` as a string: `luaL_checklstring`
/// for an argument that must be a string, else `lua_tolstring`.
pub open spec fn read_op(index: i32, required: bool) -> Op {
    if required {
        Op::CheckLString(index)
    } else {
        Op::ToLString(index)
    }
}

/// The complete conversation of `get_string(index)` (or `check_string(index)`
/// when `required`): the value read as bytes, decoded lossily; `None` when it
/// is not convertible to a string.
pub open spec fn read_string_conversation(index: i32, required: bool, log: Seq<Exchange>, out: Option<Seq<char>>) -> bool {
    &&& log.len() == 1
    &&& log[0].call == read_op(index, required)
    &&& log[0].answer matches Answer::Text(o) && out == lossy_opt(o)
}

/// The conversation of `get_string` and `check_string`.
pub struct ReadString {
    index: i32,
    required: bool,
    tape: Tape,
}

impl ReadString {
    pub closed spec fn index(&self) -> i32 {
        self.index
    }

    pub closed spec fn required(&self) -> bool {
        self.required
    }

    /// The exchanges so far.
    pub closed spec fn log(&self) -> Seq<Exchange> {
        self.tape.log()
    }

    /// The call awaiting its reply.
    pub closed spec fn pending(&self) -> Op {
        self.tape.pending()
    }

    /// The conversation is under way: its log begins a complete conversation and
    /// the pending call is the next one in it.
    pub closed spec fn wf(&self) -> bool {
        self.tape.log().len() == 0 && self.tape.pending() == read_op(self.index, self.required)
    }

    /// Starts reading the value at `index` as a string; returns the call.
    pub fn start(index: i32, required: bool) -> (r: (ReadString, ApiCall))
        ensures
            r.0.wf(),
            r.0.index() == index,
            r.0.required() == required,
            r.0.log() == Seq::<Exchange>::empty(),
            r.0.pending() == r.1@,
            r.1@ == read_op(index, required),
    {
        let first = if required {
            ApiCall::CheckLString(index)
        } else {
            ApiCall::ToLString(index)
        };
        let tape = Tape::new(&first);
        (ReadString { index, required, tape }, first)
    }

    /// Hands in the reply to the call; returns the string.
    pub fn resume(&mut self, reply: Reply) -> (step: Step<Option<String>>)
        requires
            old(self).wf(),
        ensures
            match step {
                Step::Done(out) => read_string_conversation(
                    old(self).index(),
                    old(self).required(),
                    answered(old(self).log(), old(self).pending(), reply@),
                    text_view(out),
                ),
                Step::Fault => !fits(old(self).pending(), reply@),
                _ => false,
            },
    {
        match reply {
            Reply::Text(o) => {
                if self.required && o.is_none() {
                    return Step::Fault;
                }
                Step::Done(decode_lossy_opt(&o))
            },
            _ => Step::Fault,
        }
    }
}

/// The complete conversation of `get_type(index)`: the type code of the value
/// and the name of that type, decoded lossily.
pub open spec fn type_of_conversation(index: i32, log: Seq<Exchange>, name: Seq<char>) -> bool {
    &&& log.len() == 2
    &&& log[0].call == Op::Type(index)
    &&& log[0].answer matches Answer::Int(t) && log[1].call == Op::TypeName(t)
    &&& log[1].answer matches Answer::Text(Some(b)) && name == utf8_lossy(b)
}

/// The conversation of `get_type`.
pub struct TypeOf {
    index: i32,
    stage: u8,
    tape: Tape,
}

impl TypeOf {
    pub closed spec fn index(&self) -> i32 {
        self.index
    }

    /// The exchanges so far.
    pub closed spec fn log(&self) -> Seq<Exchange> {
        self.tape.log()
    }

    /// The call awaiting its reply.
    pub closed spec fn pending(&self) -> Op {
        self.tape.pending()
    }

    /// A bound on the replies still to come.
    pub closed spec fn fuel(&self) -> nat {
        (2 - self.stage) as nat
    }

    /// The conversation is under way: its log begins a complete conversation and
    /// the pending call is the next one in it.
    pub closed spec fn wf(&self) -> bool {
        let log = self.tape.log();
        &&& self.stage < 2
        &&& self.stage == 0 ==> log.len() == 0 && self.tape.pending() == Op::Type(self.index)
        &&& self.stage == 1 ==> log.len() == 1 && log[0].call == Op::Type(self.index) && (
        log[0].answer matches Answer::Int(t) && self.tape.pending() == Op::TypeName(t))
    }

    /// Starts `get_type(index)`; returns the first call.
    pub fn start(index: i32) -> (r: (TypeOf, ApiCall))
        ensures
            r.0.wf(),
            r.0.index() == index,
            r.0.log() == Seq::<Exchange>::empty(),
            r.0.pending() == r.1@,
            r.1@ == Op::Type(index),
    {
        let first = ApiCall::Type(index);
        let tape = Tape::new(&first);
        (TypeOf { index, stage: 0, tape }, first)
    }

    /// Hands in the reply to the pending call; returns what comes next.
    pub fn resume(&mut self, reply: Reply) -> (step: Step<String>)
        requires
            old(self).wf(),
        ensures
            final(self).index() == old(self).index(),
            match step {
                Step::Call(c) => {
                    &&& final(self).wf()
                    &&& final(self).pending() == c@
                    &&& final(self).log() == answered(old(self).log(), old(self).pending(), reply@)
                    &&& final(self).fuel() < old(self).fuel()
                },
                Step::Done(name) => type_of_conversation(
                    old(self).index(),
                    answered(old(self).log(), old(self).pending(), reply@),
                    name@,
                ),
                Step::Panic(_) => false,
                Step::Fault => !fits(old(self).pending(), reply@),
            },
    {
        self.tape.record(&reply);
        if self.stage == 0 {
            match reply {
                Reply::Int(t) => {
                    self.stage = 1;
                    let next = ApiCall::TypeName(t);
                    self.tape.expect(&next);
                    Step::Call(next)
                },
                _ => Step::Fault,
            }
        } else {
            match reply {
                Reply::Text(Some(b)) => Step::Done(decode_lossy(b.as_slice())),
                _ => Step::Fault,
            }
        }
    }
}

/// The complete conversation of testing whether the value at `index` has the
/// type `expected` (`is_nil`, `is_none`, `is_function`, `is_table`, `is_boolean`).
pub open spec fn type_test_conversation(index: i32, expected: i32, log: Seq<Exchange>, out: bool) -> bool {
    &&& log.len() == 1
    &&& log[0].call == Op::Type(index)
    &&& log[0].answer matches Answer::Int(t) && out == (t == expected)
}

/// The conversation of the type tests.
pub struct TypeTest {
    index: i32,
    expected: i32,
    tape: Tape,
}

impl TypeTest {
    pub closed spec fn index(&self) -> i32 {
        self.index
    }

    pub closed spec fn expected(&self) -> i32 {
        self.expected
    }

    /// The exchanges so far.
    pub closed spec fn log(&self) -> Seq<Exchange> {
        self.tape.log()
    }

    /// The call awaiting its reply.
    pub closed spec fn pending(&self) -> Op {
        self.tape.pending()
    }

    /// The conversation is under way: its log begins a complete conversation and
    /// the pending call is the next one in it.
    pub closed spec fn wf(&self) -> bool {
        self.tape.log().len() == 0 && self.tape.pending() == Op::Type(self.index)
    }

    /// Starts testing whether the value at `index` has the type `expected`;
    /// returns the call.
    pub fn start(index: i32, expected: i32) -> (r: (TypeTest, ApiCall))
        ensures
            r.0.wf(),
            r.0.index() == index,
            r.0.expected() == expected,
            r.0.log() == Seq::<Exchange>::empty(),
            r.0.pending() == r.1@,
            r.1@ == Op::Type(index),
    {
        let first = ApiCall::Type(index);
        let tape = Tape::new(&first);
        (TypeTest { index, expected, tape }, first)
    }

    /// Hands in the reply to the call; returns the answer.
    pub fn resume(&mut self, reply: Reply) -> (step: Step<bool>)
        requires
            old(self).wf(),
        ensures
            match step {
                Step::Done(out) => type_test_conversation(
                    old(self).index(),
                    old(self).expected(),
                    answered(old(self).log(), old(self).pending(), reply@),
                    out,
                ),
                Step::Fault => !fits(old(self).pending(), reply@),
                _ => false,
            },
    {
        match reply {
            Reply::Int(t) => Step::Done(t == self.expected),
            _ => Step::Fault,
        }
    }
}

/// The complete conversation of `is_none_or_nil(index)`: the type is asked once,
/// and a second time when the first answer is not nil (`is_nil || is_none`).
pub open spec fn none_or_nil_conversation(index: i32, log: Seq<Exchange>, out: bool) -> bool {
    &&& log.len() >= 1
    &&& log[0].call == Op::Type(index)
    &&& log[0].answer matches Answer::Int(t1) && if t1 == LUA_TNIL {
        log.len() == 1 && out
    } else {
        &&& log.len() == 2
        &&& log[1].call == Op::Type(index)
        &&& log[1].answer matches Answer::Int(t2) && out == (t2 == LUA_TNONE)
    }
}

/// The conversation of `is_none_or_nil`.
pub struct NoneOrNil {
    index: i32,
    stage: u8,
    tape: Tape,
}

impl NoneOrNil {
    pub closed spec fn index(&self) -> i32 {
        self.index
    }

    /// The exchanges so far.
    pub closed spec fn log(&self) -> Seq<Exchange> {
        self.tape.log()
    }

    /// The call awaiting its reply.
    pub closed spec fn pending(&self) -> Op {
        self.tape.pending()
    }

    /// A bound on the replies still to come.
    pub closed spec fn fuel(&self) -> nat {
        (2 - self.stage) as nat
    }

    /// The conversation is under way: its log begins a complete conversation and
    /// the pending call is the next one in it.
    pub closed spec fn wf(&self) -> bool {
        let log = self.tape.log();
        &&& self.stage < 2
        &&& self.tape.pending() == Op::Type(self.index)
        &&& self.stage == 0 ==> log.len() == 0
        &&& self.stage == 1 ==> log.len() == 1 && log[0].call == Op::Type(self.index) && (
        log[0].answer matches Answer::Int(t) && t != LUA_TNIL)
    }

    /// Starts `is_none_or_nil(index)`; returns the first call.
    pub fn start(index: i32) -> (r: (NoneOrNil, ApiCall))
        ensures
            r.0.wf(),
            r.0.index() == index,
            r.0.log() == Seq::<Exchange>::empty(),
            r.0.pending() == r.1@,
            r.1@ == Op::Type(index),
    {
        let first = ApiCall::Type(index);
        let tape = Tape::new(&first);
        (NoneOrNil { index, stage: 0, tape }, first)
    }

    /// Hands in the reply to the pending call; returns what comes next.
    pub fn resume(&mut self, reply: Reply) -> (step: Step<bool>)
        requires
            old(self).wf(),
        ensures
            final(self).index() == old(self).index(),
            match step {
                Step::Call(c) => {
                    &&& final(self).wf()
                    &&& final(self).pending() == c@
                    &&& final(self).log() == answered(old(self).log(), old(self).pending(), reply@)
                    &&& final(self).fuel() < old(self).fuel()
                },
                Step::Done(out) => none_or_nil_conversation(
                    old(self).index(),
                    answered(old(self).log(), old(self).pending(), reply@),
                    out,
                ),
                Step::Panic(_) => false,
                Step::Fault => !fits(old(self).pending(), reply@),
            },
    {
        self.tape.record(&reply);
        match reply {
            Reply::Int(t) => {
                if self.stage == 0 {
                    if t == LUA_TNIL {
                        return Step::Done(true);
                    }
                    self.stage = 1;
                    let next = ApiCall::Type(self.index);
                    self.tape.expect(&next);
                    Step::Call(next)
                } else {
                    Step::Done(t == LUA_TNONE)
                }
            },
            _ => Step::Fault,
        }
    }
}

/// The complete conversation of `check_boolean(arg)`: `luaL_checktype` for a
/// boolean (which raises an error otherwise), then `lua_toboolean`.
pub open spec fn check_boolean_conversation(arg: i32, log: Seq<Exchange>, out: bool) -> bool {
    &&& log.len() == 2
    &&& log[0] == quiet(Op::CheckType(arg, LUA_TBOOLEAN))
    &&& log[1].call == Op::ToBoolean(arg)
    &&& log[1].answer matches Answer::Int(b) && out == is_true(b)
}

/// The conversation of `check_boolean`.
pub struct CheckBoolean {
    arg: i32,
    stage: u8,
    tape: Tape,
}

impl CheckBoolean {
    pub closed spec fn arg(&self) -> i32 {
        self.arg
    }

    /// The exchanges so far.
    pub closed spec fn log(&self) -> Seq<Exchange> {
        self.tape.log()
    }

    /// The call awaiting its reply.
    pub closed spec fn pending(&self) -> Op {
        self.tape.pending()
    }

    /// A bound on the replies still to come.
    pub closed spec fn fuel(&self) -> nat {
        (2 - self.stage) as nat
    }

    /// The conversation is under way: its log begins a complete conversation and
    /// the pending call is the next one in it.
    pub closed spec fn wf(&self) -> bool {
        let log = self.tape.log();
        &&& self.stage < 2
        &&& self.stage == 0 ==> log.len() == 0 && self.tape.pending() == Op::CheckType(
            self.arg,
            LUA_TBOOLEAN,
        )
        &&& self.stage == 1 ==> log == seq![quiet(Op::CheckType(self.arg, LUA_TBOOLEAN))]
            && self.tape.pending() == Op::ToBoolean(self.arg)
    }

    /// Starts `check_boolean(arg)`; returns the first call.
    pub fn start(arg: i32) -> (r: (CheckBoolean, ApiCall))
        ensures
            r.0.wf(),
            r.0.arg() == arg,
            r.0.log() == Seq::<Exchange>::empty(),
            r.0.pending() == r.1@,
            r.1@ == Op::CheckType(arg, LUA_TBOOLEAN),
    {
        let first = ApiCall::CheckType(arg, LUA_TBOOLEAN);
        let tape = Tape::new(&first);
        (CheckBoolean { arg, stage: 0, tape }, first)
    }

    /// Hands in the reply to the pending call; returns what comes next.
    pub fn resume(&mut self, reply: Reply) -> (step: Step<bool>)
        requires
            old(self).wf(),
        ensures
            final(self).arg() == old(self).arg(),
            match step {
                Step::Call(c) => {
                    &&& final(self).wf()
                    &&& final(self).pending() == c@
                    &&& final(self).log() == answered(old(self).log(), old(self).pending(), reply@)
                    &&& final(self).fuel() < old(self).fuel()
                },
                Step::Done(out) => check_boolean_conversation(
                    old(self).arg(),
                    answered(old(self).log(), old(self).pending(), reply@),
                    out,
                ),
                Step::Panic(_) => false,
                Step::Fault => !fits(old(self).pending(), reply@),
            },
    {
        self.tape.record(&reply);
        if self.stage == 0 {
            match reply {
                Reply::Nothing => {
                    self.stage = 1;
                    assert(self.tape.log() =~= seq![quiet(Op::CheckType(self.arg, LUA_TBOOLEAN))]);
                    let next = ApiCall::ToBoolean(self.arg);
                    self.tape.expect(&next);
                    Step::Call(next)
                },
                _ => Step::Fault,
            }
        } else {
            match reply {
                Reply::Int(b) => Step::Done(lua_boolean(b)),
                _ => Step::Fault,
            }
        }
    }
}

/// What is loaded as a Lua chunk.
#[derive(Debug, Clone, PartialEq)]
pub enum Chunk {
    /// `load_string`: a NUL-terminated source text.
    Source(Vec<u8>),
    /// `load_buffer`: a buffer of source or bytecode, with a chunk name.
    Buffer(Vec<u8>, Vec<u8>),
    /// `load_file`: the path of a file.
    File(Vec<u8>),
}

/// The loading call for `chunk`.
pub open spec fn load_op(chunk: Chunk) -> Op {
    match chunk {
        Chunk::Source(s) => Op::LoadString(s@),
        Chunk::Buffer(b, n) => Op::LoadBuffer(b@, n@),
        Chunk::File(p) => Op::LoadFile(p@),
    }
}

/// What loading returns for the status `code`: success for 0, else the status,
/// from which the host builds its error.
pub open spec fn load_outcome(code: i32) -> Result<(), i32> {
    if code == 0 {
        Ok(())
    } else {
        Err(code)
    }
}

/// The complete conversation of loading `chunk`.
pub open spec fn load_conversation(call: Op, log: Seq<Exchange>, out: Result<(), i32>) -> bool {
    &&& log.len() == 1
    &&& log[0].call == call
    &&& log[0].answer matches Answer::Int(code) && out == load_outcome(code)
}

/// The conversation of `load_string`, `load_buffer` and `load_file`.
pub struct Load {
    call: Ghost<Op>,
    tape: Tape,
}

impl Load {
    pub closed spec fn call(&self) -> Op {
        self.call@
    }

    /// The exchanges so far.
    pub closed spec fn log(&self) -> Seq<Exchange> {
        self.tape.log()
    }

    /// The call awaiting its reply.
    pub closed spec fn pending(&self) -> Op {
        self.tape.pending()
    }

    /// The conversation is under way: its log begins a complete conversation and
    /// the pending call is the next one in it.
    pub closed spec fn wf(&self) -> bool {
        &&& self.tape.log().len() == 0
        &&& self.tape.pending() == self.call@
        &&& self.call@ is LoadString || self.call@ is LoadBuffer || self.call@ is LoadFile
    }

    /// Starts loading `chunk`; returns the call.
    pub fn start(chunk: Chunk) -> (r: (Load, ApiCall))
        ensures
            r.0.wf(),
            r.0.call() == load_op(chunk),
            r.0.log() == Seq::<Exchange>::empty(),
            r.0.pending() == r.1@,
            r.1@ == load_op(chunk),
    {
        let ghost op = load_op(chunk);
        let first = match chunk {
            Chunk::Source(s) => ApiCall::LoadString(s),
            Chunk::Buffer(b, n) => ApiCall::LoadBuffer(b, n),
            Chunk::File(p) => ApiCall::LoadFile(p),
        };
        let tape = Tape::new(&first);
        (Load { call: Ghost(op), tape }, first)
    }

    /// Hands in the reply to the call; returns the outcome.
    pub fn resume(&mut self, reply: Reply) -> (step: Step<Result<(), i32>>)
        requires
            old(self).wf(),
        ensures
            match step {
                Step::Done(out) => load_conversation(
                    old(self).call(),
                    answered(old(self).log(), old(self).pending(), reply@),
                    out,
                ),
                Step::Fault => !fits(old(self).pending(), reply@),
                _ => false,
            },
    {
        match reply {
            Reply::Int(code) => {
                if code == 0 {
                    Step::Done(Ok(()))
                } else {
                    Step::Done(Err(code))
                }
            },
            _ => Step::Fault,
        }
    }
}

/// A debug lookup.
#[derive(Debug, Clone, PartialEq)]
pub enum Lookup {
    /// `debug_getinfo_from_ar` and `debug_getinfo_from_stack`: `lua_getinfo(what)`.
    Info(Vec<u8>),
    /// `get_stack_at(level)`: `lua_getstack(level)`.
    Stack(i32),
    /// `debug_getinfo_at(level, what)`: `lua_getstack(level)`, then, if it
    /// found the level, `lua_getinfo(what)`.
    StackInfo(i32, Vec<u8>),
}

/// The view of a [`Lookup`].
pub enum LookupV {
    Info(Seq<u8>),
    Stack(i32),
    StackInfo(i32, Seq<u8>),
}

impl View for Lookup {
    type V = LookupV;

    open spec fn view(&self) -> LookupV {
        match self {
            Lookup::Info(w) => LookupV::Info(w@),
            Lookup::Stack(l) => LookupV::Stack(*l),
            Lookup::StackInfo(l, w) => LookupV::StackInfo(*l, w@),
        }
    }
}

/// The first call of `lookup`.
pub open spec fn lookup_first(lookup: LookupV) -> Op {
    match lookup {
        LookupV::Info(what) => Op::GetInfo(what),
        LookupV::Stack(level) => Op::GetStack(level),
        LookupV::StackInfo(level, _) => Op::GetStack(level),
    }
}

/// The complete conversation of `lookup`; `found` is whether the record was
/// filled (each call returns non-zero on success).
pub open spec fn lookup_conversation(lookup: LookupV, log: Seq<Exchange>, found: bool) -> bool {
    match lookup {
        LookupV::Info(what) => log.len() == 1 && log[0].call == Op::GetInfo(what) && (
        log[0].answer matches Answer::Int(a) && found == (a != 0)),
        LookupV::Stack(level) => log.len() == 1 && log[0].call == Op::GetStack(level) && (
        log[0].answer matches Answer::Int(a) && found == (a != 0)),
        LookupV::StackInfo(level, what) => {
            &&& log.len() >= 1
            &&& log[0].call == Op::GetStack(level)
            &&& log[0].answer matches Answer::Int(a) && if a == 0 {
                log.len() == 1 && !found
            } else {
                &&& log.len() == 2
                &&& log[1].call == Op::GetInfo(what)
                &&& log[1].answer matches Answer::Int(b) && found == (b != 0)
            }
        },
    }
}

/// The conversation of the debug lookups.
pub struct DebugLookup {
    lookup: Lookup,
    stage: u8,
    tape: Tape,
}

impl DebugLookup {
    pub closed spec fn lookup(&self) -> LookupV {
        self.lookup@
    }

    /// The exchanges so far.
    pub closed spec fn log(&self) -> Seq<Exchange> {
        self.tape.log()
    }

    /// The call awaiting its reply.
    pub closed spec fn pending(&self) -> Op {
        self.tape.pending()
    }

    /// A bound on the replies still to come.
    pub closed spec fn fuel(&self) -> nat {
        (2 - self.stage) as nat
    }

    /// The conversation is under way: its log begins a complete conversation and
    /// the pending call is the next one in it.
    pub closed spec fn wf(&self) -> bool {
        let log = self.tape.log();
        &&& self.stage < 2
        &&& self.stage == 0 ==> log.len() == 0 && self.tape.pending() == lookup_first(self.lookup@)
        &&& self.stage == 1 ==> (self.lookup@ matches LookupV::StackInfo(level, what) && log.len()
            == 1 && log[0].call == Op::GetStack(level) && (log[0].answer matches Answer::Int(a)
            && a != 0) && self.tape.pending() == Op::GetInfo(what))
    }

    /// Starts `lookup`; returns the first call.
    pub fn start(lookup: Lookup) -> (r: (DebugLookup, ApiCall))
        ensures
            r.0.wf(),
            r.0.lookup() == lookup@,
            r.0.log() == Seq::<Exchange>::empty(),
            r.0.pending() == r.1@,
            r.1@ == lookup_first(lookup@),
    {
        let first = match &lookup {
            Lookup::Info(what) => ApiCall::GetInfo(what.clone()),
            Lookup::Stack(level) => ApiCall::GetStack(*level),
            Lookup::StackInfo(level, _) => ApiCall::GetStack(*level),
        };
        let tape = Tape::new(&first);
        (DebugLookup { lookup, stage: 0, tape }, first)
    }

    /// Hands in the reply to the pending call; returns what comes next.
    pub fn resume(&mut self, reply: Reply) -> (step: Step<bool>)
        requires
            old(self).wf(),
        ensures
            final(self).lookup() == old(self).lookup(),
            match step {
                Step::Call(c) => {
                    &&& final(self).wf()
                    &&& final(self).pending() == c@
                    &&& final(self).log() == answered(old(self).log(), old(self).pending(), reply@)
                    &&& final(self).fuel() < old(self).fuel()
                },
                Step::Done(found) => lookup_conversation(
                    old(self).lookup(),
                    answered(old(self).log(), old(self).pending(), reply@),
                    found,
                ),
                Step::Panic(_) => false,
                Step::Fault => !fits(old(self).pending(), reply@),
            },
    {
        self.tape.record(&reply);
        match reply {
            Reply::Int(a) => {
                if self.stage == 0 {
                    match &self.lookup {
                        Lookup::StackInfo(_, what) => {
                            if a == 0 {
                                return Step::Done(false);
                            }
                            let next = ApiCall::GetInfo(what.clone());
                            self.stage = 1;
                            self.tape.expect(&next);
                            Step::Call(next)
                        },
                        _ => Step::Done(a != 0),
                    }
                } else {
                    Step::Done(a != 0)
                }
            },
            _ => Step::Fault,
        }
    }
}

} // verus!
