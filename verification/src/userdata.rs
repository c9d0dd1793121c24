//! Full userdata: `test_userdata` and `new_userdata`.
use vstd::prelude::*;
use vstd::string::StringSliceAdditionalSpecFns;
use crate::api::{answered, fits, is_true, lua_boolean, quiet, Answer, ApiCall, Exchange, Op, Reply, Step, Tape};
use crate::consts::LUA_REGISTRYINDEX;
use crate::text::c_name;

verus! {

/// Every exchange of `test_userdata(index, name)`: whether the value is a
/// userdata (`p`), then whether it has a metatable (`m`), then whether that
/// metatable is raw-equal (`e`) to the registry's `name` entry, after which both
/// pushed tables are popped.
pub open spec fn test_userdata_exchanges(index: i32, name: Seq<u8>, p: bool, m: i32, e: i32) -> Seq<Exchange> {
    let probe = Exchange { call: Op::ToUserdata(index), answer: Answer::Pointer(p) };
    let meta = Exchange { call: Op::GetMetatable(index), answer: Answer::Int(m) };
    if !p {
        seq![probe]
    } else if m == 0 {
        seq![probe, meta]
    } else {
        seq![
            probe,
            meta,
            quiet(Op::GetField(LUA_REGISTRYINDEX, name)),
            Exchange { call: Op::RawEqual(-1i32, -2i32), answer: Answer::Int(e) },
            quiet(Op::SetTop(-3i32)),
        ]
    }
}

/// The complete conversation of `test_userdata(index, name)` that answers `out`:
/// true exactly when the value is a userdata whose metatable is the registry's
/// `name` entry.
pub open spec fn test_userdata_conversation(index: i32, name: Seq<u8>, log: Seq<Exchange>, out: bool) -> bool {
    exists|p: bool, m: i32, e: i32|
        #![trigger test_userdata_exchanges(index, name, p, m, e)]
        log == test_userdata_exchanges(index, name, p, m, e) && out == (p && m != 0 && is_true(e))
}

/// The conversation of `test_userdata`.
pub struct TestUserdata {
    index: i32,
    name: Vec<u8>,
    count: usize,
    p: bool,
    m: i32,
    e: i32,
    tape: Tape,
}

impl TestUserdata {
    pub closed spec fn index(&self) -> i32 {
        self.index
    }

    pub closed spec fn name(&self) -> Seq<u8> {
        self.name@
    }

    /// The exchanges so far.
    pub closed spec fn log(&self) -> Seq<Exchange> {
        self.tape.log()
    }

    /// The call awaiting its reply.
    pub closed spec fn pending(&self) -> Op {
        self.tape.pending()
    }

    /// A bound on the replies still to come.
    pub closed spec fn fuel(&self) -> nat {
        (5 - self.count) as nat
    }

    closed spec fn script(&self) -> Seq<Exchange> {
        test_userdata_exchanges(self.index, self.name@, self.p, self.m, self.e)
    }

    /// The conversation is under way: its log begins a complete conversation and
    /// the pending call is the next one in it.
    pub closed spec fn wf(&self) -> bool {
        let log = self.tape.log();
        &&& self.count == log.len()
        &&& log.len() < self.script().len()
        &&& log == self.script().take(log.len() as int)
        &&& self.tape.pending() == self.script()[log.len() as int].call
    }

    /// Starts `test_userdata(index, name)`; returns the first call.
    pub fn start(index: i32, name: Vec<u8>) -> (r: (TestUserdata, ApiCall))
        ensures
            r.0.wf(),
            r.0.index() == index,
            r.0.name() == name@,
            r.0.log() == Seq::<Exchange>::empty(),
            r.0.pending() == r.1@,
            r.1@ == Op::ToUserdata(index),
    {
        let first = ApiCall::ToUserdata(index);
        let tape = Tape::new(&first);
        let r = TestUserdata { index, name, count: 0, p: true, m: 1, e: 0, tape };
        assert(r.tape.log() =~= r.script().take(0));
        (r, first)
    }

    /// Hands in the reply to the pending call; returns what comes next.
    pub fn resume(&mut self, reply: Reply) -> (step: Step<bool>)
        requires
            old(self).wf(),
        ensures
            final(self).index() == old(self).index(),
            final(self).name() == old(self).name(),
            match step {
                Step::Call(c) => {
                    &&& final(self).wf()
                    &&& final(self).pending() == c@
                    &&& final(self).log() == answered(old(self).log(), old(self).pending(), reply@)
                    &&& final(self).fuel() < old(self).fuel()
                },
                Step::Done(out) => test_userdata_conversation(
                    old(self).index(),
                    old(self).name(),
                    answered(old(self).log(), old(self).pending(), reply@),
                    out,
                ),
                Step::Panic(_) => false,
                Step::Fault => !fits(old(self).pending(), reply@),
            },
    {
        self.tape.record(&reply);
        if self.count == 0 {
            match reply {
                Reply::Pointer(p) => {
                    self.p = p;
                    self.count = 1;
                    assert(self.tape.log() =~= self.script().take(1));
                    if !p {
                        assert(self.tape.log() =~= self.script());
                        return Step::Done(false);
                    }
                    let next = ApiCall::GetMetatable(self.index);
                    self.tape.expect(&next);
                    Step::Call(next)
                },
                _ => Step::Fault,
            }
        } else if self.count == 1 {
            match reply {
                Reply::Int(m) => {
                    self.m = m;
                    self.count = 2;
                    assert(self.tape.log() =~= self.script().take(2));
                    if m == 0 {
                        assert(self.tape.log() =~= self.script());
                        return Step::Done(false);
                    }
                    let next = ApiCall::GetField(LUA_REGISTRYINDEX, self.name.clone());
                    self.tape.expect(&next);
                    Step::Call(next)
                },
                _ => Step::Fault,
            }
        } else if self.count == 2 {
            match reply {
                Reply::Nothing => {
                    self.count = 3;
                    assert(self.tape.log() =~= self.script().take(3));
                    let next = ApiCall::RawEqual(-1, -2);
                    self.tape.expect(&next);
                    Step::Call(next)
                },
                _ => Step::Fault,
            }
        } else if self.count == 3 {
            match reply {
                Reply::Int(e) => {
                    self.e = e;
                    self.count = 4;
                    assert(self.tape.log() =~= self.script().take(4));
                    let next = ApiCall::SetTop(-3);
                    self.tape.expect(&next);
                    Step::Call(next)
                },
                _ => Step::Fault,
            }
        } else {
            match reply {
                Reply::Nothing => {
                    assert(self.tape.log() =~= self.script());
                    Step::Done(lua_boolean(self.e))
                },
                _ => Step::Fault,
            }
        }
    }
}

/// Whether `new_userdata` gives the new userdata a metatable: when the type
/// needs dropping (a `__gc` metamethod is set) or a metatable was passed.
pub open spec fn has_metatable(needs_drop: bool, metatable: Option<i32>) -> bool {
    needs_drop || metatable is Some
}

/// The exchanges before the userdata is allocated: the metatable pushed (a copy
/// of the one at `metatable`, or, for a type that needs dropping and no
/// metatable, a new table), and for a type that needs dropping its finaliser set
/// as `__gc`.
pub open spec fn userdata_prelude(needs_drop: bool, metatable: Option<i32>) -> Seq<Exchange> {
    if needs_drop {
        seq![
            quiet(
                match metatable {
                    Some(m) => Op::PushValue(m),
                    None => Op::CreateTable(0i32, 0i32),
                },
            ),
            quiet(Op::PushFinalizer),
            quiet(Op::SetField(-2i32, "__gc".spec_bytes())),
        ]
    } else {
        match metatable {
            Some(m) => seq![quiet(Op::PushValue(m))],
            None => Seq::empty(),
        }
    }
}

/// Every exchange of `new_userdata`: the prelude, the allocation of `size`
/// bytes, and with a metatable: a copy of it pushed and set on the userdata
/// (`lua_setmetatable` answering `set`), then twice the value just below the top
/// removed, by the top read as `top1` and then `top2`.
pub open spec fn new_userdata_exchanges(
    needs_drop: bool,
    metatable: Option<i32>,
    size: usize,
    set: i32,
    top1: i32,
    top2: i32,
) -> Seq<Exchange> {
    let made = userdata_prelude(needs_drop, metatable) + seq![quiet(Op::NewUserdata(size))];
    if has_metatable(needs_drop, metatable) {
        made + seq![
            quiet(Op::PushValue(-2i32)),
            Exchange { call: Op::SetMetatable(-2i32), answer: Answer::Int(set) },
            Exchange { call: Op::GetTop, answer: Answer::Int(top1) },
            quiet(Op::Remove((top1 - 1) as i32)),
            Exchange { call: Op::GetTop, answer: Answer::Int(top2) },
            quiet(Op::Remove((top2 - 1) as i32)),
        ]
    } else {
        made
    }
}

/// The complete conversation of `new_userdata`.
pub open spec fn new_userdata_conversation(needs_drop: bool, metatable: Option<i32>, size: usize, log: Seq<Exchange>) -> bool {
    exists|set: i32, top1: i32, top2: i32|
        #![trigger new_userdata_exchanges(needs_drop, metatable, size, set, top1, top2)]
        top1 >= 0 && top2 >= 0 && log == new_userdata_exchanges(
            needs_drop,
            metatable,
            size,
            set,
            top1,
            top2,
        )
}

/// The conversation of `new_userdata`. The data is written by the host into
/// the memory that `lua_newuserdata` returned, after the conversation.
pub struct NewUserdata {
    needs_drop: bool,
    metatable: Option<i32>,
    size: usize,
    count: usize,
    set: i32,
    top1: i32,
    top2: i32,
    tape: Tape,
}

impl NewUserdata {
    pub closed spec fn needs_drop(&self) -> bool {
        self.needs_drop
    }

    pub closed spec fn metatable(&self) -> Option<i32> {
        self.metatable
    }

    pub closed spec fn size(&self) -> usize {
        self.size
    }

    /// The exchanges so far.
    pub closed spec fn log(&self) -> Seq<Exchange> {
        self.tape.log()
    }

    /// The call awaiting its reply.
    pub closed spec fn pending(&self) -> Op {
        self.tape.pending()
    }

    /// A bound on the replies still to come.
    pub closed spec fn fuel(&self) -> nat {
        (10 - self.count) as nat
    }

    closed spec fn script(&self) -> Seq<Exchange> {
        new_userdata_exchanges(
            self.needs_drop,
            self.metatable,
            self.size,
            self.set,
            self.top1,
            self.top2,
        )
    }

    /// The conversation is under way: its log begins a complete conversation and
    /// the pending call is the next one in it.
    pub closed spec fn wf(&self) -> bool {
        let log = self.tape.log();
        &&& self.count == log.len()
        &&& log.len() < self.script().len()
        &&& log == self.script().take(log.len() as int)
        &&& self.tape.pending() == self.script()[log.len() as int].call
        &&& self.top1 >= 0
        &&& self.top2 >= 0
    }

    /// The number of exchanges before the allocation.
    fn prelude_len(&self) -> (n: usize)
        ensures
            n == userdata_prelude(self.needs_drop, self.metatable).len(),
            n <= 3,
    {
        if self.needs_drop {
            3
        } else {
            match self.metatable {
                Some(_) => 1,
                None => 0,
            }
        }
    }

    /// The number of exchanges in all.
    fn script_len(&self) -> (n: usize)
        ensures
            n == self.script().len(),
            n <= 10,
    {
        let p = self.prelude_len();
        if self.needs_drop || self.metatable.is_some() {
            p + 7
        } else {
            p + 1
        }
    }

    /// The call at position `k`.
    fn call_at(&self, k: usize) -> (c: ApiCall)
        requires
            k < self.script().len(),
            self.top1 >= 0,
            self.top2 >= 0,
        ensures
            c@ == self.script()[k as int].call,
    {
        let ghost pre = userdata_prelude(self.needs_drop, self.metatable);
        let ghost made = pre + seq![quiet(Op::NewUserdata(self.size))];
        let p = self.prelude_len();
        if k < p {
            assert(self.script()[k as int] == pre[k as int]);
            if self.needs_drop {
                if k == 0 {
                    match self.metatable {
                        Some(m) => ApiCall::PushValue(m),
                        None => ApiCall::CreateTable(0, 0),
                    }
                } else if k == 1 {
                    ApiCall::PushFinalizer
                } else {
                    ApiCall::SetField(-2, c_name("__gc"))
                }
            } else {
                match self.metatable {
                    Some(m) => ApiCall::PushValue(m),
                    None => ApiCall::PushFinalizer,
                }
            }
        } else if k == p {
            assert(self.script()[k as int] == made[k as int]);
            ApiCall::NewUserdata(self.size)
        } else {
            let j = k - p - 1;
            assert(self.script()[k as int] == self.script().subrange(made.len() as int, self.script().len() as int)[j as int]);
            if j == 0 {
                ApiCall::PushValue(-2)
            } else if j == 1 {
                ApiCall::SetMetatable(-2)
            } else if j == 2 || j == 4 {
                ApiCall::GetTop
            } else if j == 3 {
                ApiCall::Remove(self.top1 - 1)
            } else {
                ApiCall::Remove(self.top2 - 1)
            }
        }
    }

    /// Starts `new_userdata` for a type of `size` bytes that needs dropping or
    /// not, with the metatable at index `metatable` or none; returns the first
    /// call.
    pub fn start(needs_drop: bool, metatable: Option<i32>, size: usize) -> (r: (NewUserdata, ApiCall))
        ensures
            r.0.wf(),
            r.0.needs_drop() == needs_drop,
            r.0.metatable() == metatable,
            r.0.size() == size,
            r.0.log() == Seq::<Exchange>::empty(),
            r.0.pending() == r.1@,
            r.1@ == new_userdata_exchanges(needs_drop, metatable, size, 0, 0, 0)[0].call,
    {
        let mut r = NewUserdata {
            needs_drop,
            metatable,
            size,
            count: 0,
            set: 0,
            top1: 0,
            top2: 0,
            tape: Tape::new(&ApiCall::GetTop),
        };
        let first = r.call_at(0);
        r.tape = Tape::new(&first);
        assert(r.tape.log() =~= r.script().take(0));
        (r, first)
    }

    /// Hands in the reply to the pending call; returns what comes next.
    pub fn resume(&mut self, reply: Reply) -> (step: Step<()>)
        requires
            old(self).wf(),
        ensures
            final(self).needs_drop() == old(self).needs_drop(),
            final(self).metatable() == old(self).metatable(),
            final(self).size() == old(self).size(),
            match step {
                Step::Call(c) => {
                    &&& final(self).wf()
                    &&& final(self).pending() == c@
                    &&& final(self).log() == answered(old(self).log(), old(self).pending(), reply@)
                    &&& final(self).fuel() < old(self).fuel()
                },
                Step::Done(_) => new_userdata_conversation(
                    old(self).needs_drop(),
                    old(self).metatable(),
                    old(self).size(),
                    answered(old(self).log(), old(self).pending(), reply@),
                ),
                Step::Panic(_) => false,
                Step::Fault => !fits(old(self).pending(), reply@),
            },
    {
        let base = self.prelude_len() + 1;
        let k = self.count;
        self.tape.record(&reply);
        if k == base + 1 {
            // lua_setmetatable
            match reply {
                Reply::Int(set) => {
                    self.set = set;
                },
                _ => {
                    return Step::Fault;
                },
            }
        } else if k == base + 2 || k == base + 4 {
            // lua_gettop
            match reply {
                Reply::Int(n) => {
                    if n < 0 {
                        return Step::Fault;
                    }
                    if k == base + 2 {
                        self.top1 = n;
                    } else {
                        self.top2 = n;
                    }
                },
                _ => {
                    return Step::Fault;
                },
            }
        } else {
            match reply {
                Reply::Nothing => {},
                _ => {
                    return Step::Fault;
                },
            }
        }
        self.count = k + 1;
        assert(self.tape.log() =~= self.script().take(self.count as int));
        if self.count == self.script_len() {
            assert(self.tape.log() =~= self.script());
            return Step::Done(());
        }
        let next = self.call_at(self.count);
        self.tape.expect(&next);
        Step::Call(next)
    }
}

} // verus!
