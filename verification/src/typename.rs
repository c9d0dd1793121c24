//! `lua_type_name`: the name of a type code, with the stack put back as it was
//! around `lua_typename` (the host's `lua_typename` may push values).
use vstd::prelude::*;
use crate::api::{answered, fits, Answer, ApiCall, Exchange, Op, Reply, Step, Tape};
use crate::text::{decode_lossy, utf8_lossy};

verus! {

/// The `lua_settop` argument that pops what came above the `before` values that
/// were on the stack when there are now `after`: `pop_n(max(after - before, 0))`.
pub open spec fn restoring_top(before: i32, after: i32) -> i32 {
    if after > before {
        (before - after - 1) as i32
    } else {
        -1i32
    }
}

/// The complete conversation of `lua_type_name(type_id)` that yields `name`:
/// read the top, ask the name, read the top again, pop what appeared.
pub open spec fn type_name_conversation(type_id: i32, log: Seq<Exchange>, name: Seq<char>) -> bool {
    &&& log.len() == 4
    &&& log[0].call == Op::GetTop
    &&& log[1].call == Op::TypeName(type_id)
    &&& log[2].call == Op::GetTop
    &&& log[1].answer matches Answer::Text(Some(bytes)) && name == utf8_lossy(bytes)
    &&& log[0].answer matches Answer::Int(before) && log[2].answer matches Answer::Int(after)
        && before >= 0 && after >= 0 && log[3] == Exchange {
        call: Op::SetTop(restoring_top(before, after)),
        answer: Answer::Nothing,
    }
}

/// The conversation of `lua_type_name`.
pub struct TypeName {
    type_id: i32,
    stage: u8,
    before: i32,
    name: String,
    tape: Tape,
}

impl TypeName {
    pub closed spec fn type_id(&self) -> i32 {
        self.type_id
    }

    /// The exchanges so far.
    pub closed spec fn log(&self) -> Seq<Exchange> {
        self.tape.log()
    }

    /// The call awaiting its reply.
    pub closed spec fn pending(&self) -> Op {
        self.tape.pending()
    }

    /// A bound on the replies still to come.
    pub closed spec fn fuel(&self) -> nat {
        (4 - self.stage) as nat
    }

    /// The conversation is under way: its log begins a complete conversation and
    /// the pending call is the next one in it.
    pub closed spec fn wf(&self) -> bool {
        let log = self.tape.log();
        let pending = self.tape.pending();
        &&& self.stage < 4
        &&& log.len() == self.stage
        &&& self.stage >= 1 ==> log[0] == Exchange { call: Op::GetTop, answer: Answer::Int(self.before) }
            && self.before >= 0
        &&& self.stage >= 2 ==> log[1].call == Op::TypeName(self.type_id) && (
        log[1].answer matches Answer::Text(Some(bytes)) && self.name@ == utf8_lossy(bytes))
        &&& self.stage == 0 ==> pending == Op::GetTop
        &&& self.stage == 1 ==> pending == Op::TypeName(self.type_id)
        &&& self.stage == 2 ==> pending == Op::GetTop
        &&& self.stage == 3 ==> log[2].call == Op::GetTop && (log[2].answer matches Answer::Int(
            after,
        ) && after >= 0 && pending == Op::SetTop(restoring_top(self.before, after)))
    }

    /// Starts `lua_type_name(type_id)`; returns the first call.
    pub fn start(type_id: i32) -> (r: (TypeName, ApiCall))
        ensures
            r.0.wf(),
            r.0.type_id() == type_id,
            r.0.log() == Seq::<Exchange>::empty(),
            r.0.pending() == r.1@,
            r.0.fuel() == 4,
            r.1@ == Op::GetTop,
    {
        let first = ApiCall::GetTop;
        let tape = Tape::new(&first);
        (TypeName { type_id, stage: 0, before: 0, name: String::new(), tape }, first)
    }

    /// Hands in the reply to the pending call; returns what comes next.
    pub fn resume(&mut self, reply: Reply) -> (step: Step<String>)
        requires
            old(self).wf(),
        ensures
            final(self).type_id() == old(self).type_id(),
            match step {
                Step::Call(c) => {
                    &&& final(self).wf()
                    &&& final(self).pending() == c@
                    &&& final(self).log() == answered(old(self).log(), old(self).pending(), reply@)
                    &&& final(self).fuel() < old(self).fuel()
                },
                Step::Done(name) => type_name_conversation(
                    old(self).type_id(),
                    answered(old(self).log(), old(self).pending(), reply@),
                    name@,
                ),
                Step::Panic(_) => false,
                Step::Fault => !fits(old(self).pending(), reply@),
            },
    {
        if self.stage == 0 {
            match reply {
                Reply::Int(n) => {
                    if n < 0 {
                        return Step::Fault;
                    }
                    let next = ApiCall::TypeName(self.type_id);
                    self.tape.record(&reply);
                    self.tape.expect(&next);
                    self.before = n;
                    self.stage = 1;
                    Step::Call(next)
                },
                _ => Step::Fault,
            }
        } else if self.stage == 1 {
            match reply {
                Reply::Text(Some(bytes)) => {
                    let next = ApiCall::GetTop;
                    self.name = decode_lossy(bytes.as_slice());
                    self.tape.record(&Reply::Text(Some(bytes)));
                    self.tape.expect(&next);
                    self.stage = 2;
                    Step::Call(next)
                },
                _ => Step::Fault,
            }
        } else if self.stage == 2 {
            match reply {
                Reply::Int(after) => {
                    if after < 0 {
                        return Step::Fault;
                    }
                    let index = if after > self.before {
                        self.before - after - 1
                    } else {
                        -1
                    };
                    let next = ApiCall::SetTop(index);
                    self.tape.record(&reply);
                    self.tape.expect(&next);
                    self.stage = 3;
                    Step::Call(next)
                },
                _ => Step::Fault,
            }
        } else {
            match reply {
                Reply::Nothing => {
                    let name = self.name.clone();
                    Step::Done(name)
                },
                _ => Step::Fault,
            }
        }
    }
}

} // verus!
