//! Reading one of the boolean globals that tell the realm of a Lua state.
use vstd::prelude::*;
use crate::api::{answered, fits, is_true, lua_boolean, Answer, ApiCall, Exchange, Op, Reply, Step, Tape};
use crate::consts::LUA_GLOBALSINDEX;
use crate::text::c_name;
use vstd::string::StringSliceAdditionalSpecFns;

verus! {

/// The realms a Garry's Mod Lua state can belong to.
#[derive(Debug, Clone, PartialEq)]
pub enum Realm {
    /// The clientside state: global `CLIENT`.
    Client,
    /// The serverside state: global `SERVER`.
    Server,
    /// The menu state: global `MENU_DLL`.
    Menu,
}

/// The name of the global that is true in `realm`.
pub open spec fn realm_key(realm: Realm) -> Seq<u8> {
    match realm {
        Realm::Client => "CLIENT".spec_bytes(),
        Realm::Server => "SERVER".spec_bytes(),
        Realm::Menu => "MENU_DLL".spec_bytes(),
    }
}

fn key_of(realm: &Realm) -> (k: Vec<u8>)
    ensures
        k@ == realm_key(*realm),
{
    match realm {
        Realm::Client => c_name("CLIENT"),
        Realm::Server => c_name("SERVER"),
        Realm::Menu => c_name("MENU_DLL"),
    }
}

/// The complete conversation of reading the global `key` as a boolean:
/// push it, read it with `lua_toboolean(-1)`, pop it.
pub open spec fn global_flag_conversation(key: Seq<u8>, log: Seq<Exchange>, flag: bool) -> bool {
    &&& log.len() == 3
    &&& log[0] == Exchange { call: Op::GetField(LUA_GLOBALSINDEX, key), answer: Answer::Nothing }
    &&& log[1].call == Op::ToBoolean(-1i32)
    &&& log[1].answer matches Answer::Int(b) && flag == is_true(b)
    &&& log[2] == Exchange { call: Op::SetTop(-2i32), answer: Answer::Nothing }
}

/// The conversation of `is_client`, `is_server` and `is_menu`.
pub struct GlobalFlag {
    key: Vec<u8>,
    stage: u8,
    flag: bool,
    tape: Tape,
}

impl GlobalFlag {
    pub closed spec fn key(&self) -> Seq<u8> {
        self.key@
    }

    /// The exchanges so far.
    pub closed spec fn log(&self) -> Seq<Exchange> {
        self.tape.log()
    }

    /// The call awaiting its reply.
    pub closed spec fn pending(&self) -> Op {
        self.tape.pending()
    }

    /// A bound on the replies still to come.
    pub closed spec fn fuel(&self) -> nat {
        (3 - self.stage) as nat
    }

    /// The conversation is under way and its log so far is a start of
    /// [`global_flag_conversation`].
    pub closed spec fn wf(&self) -> bool {
        let log = self.tape.log();
        let first = Exchange { call: Op::GetField(LUA_GLOBALSINDEX, self.key@), answer: Answer::Nothing };
        &&& self.stage < 3
        &&& self.stage == 0 ==> log.len() == 0 && self.tape.pending() == Op::GetField(
            LUA_GLOBALSINDEX,
            self.key@,
        )
        &&& self.stage == 1 ==> log.len() == 1 && log[0] == first && self.tape.pending()
            == Op::ToBoolean(-1i32)
        &&& self.stage == 2 ==> {
            &&& log.len() == 2
            &&& log[0] == first
            &&& log[1].call == Op::ToBoolean(-1i32)
            &&& log[1].answer matches Answer::Int(b) && self.flag == is_true(b)
            &&& self.tape.pending() == Op::SetTop(-2i32)
        }
    }

    /// Starts reading the global that is true in `realm`; returns the first call.
    pub fn start(realm: Realm) -> (r: (GlobalFlag, ApiCall))
        ensures
            r.0.wf(),
            r.0.key() == realm_key(realm),
            r.0.log() == Seq::<Exchange>::empty(),
            r.0.pending() == r.1@,
            r.1@ == Op::GetField(LUA_GLOBALSINDEX, realm_key(realm)),
    {
        let key = key_of(&realm);
        let first = ApiCall::GetField(LUA_GLOBALSINDEX, key.clone());
        let tape = Tape::new(&first);
        (GlobalFlag { key, stage: 0, flag: false, tape }, first)
    }

    /// Hands in the reply to the pending call; returns what comes next.
    pub fn resume(&mut self, reply: Reply) -> (step: Step<bool>)
        requires
            old(self).wf(),
        ensures
            final(self).key() == old(self).key(),
            match step {
                Step::Call(c) => {
                    &&& final(self).wf()
                    &&& final(self).pending() == c@
                    &&& final(self).log() == answered(old(self).log(), old(self).pending(), reply@)
                    &&& final(self).fuel() < old(self).fuel()
                },
                Step::Done(flag) => global_flag_conversation(
                    old(self).key(),
                    answered(old(self).log(), old(self).pending(), reply@),
                    flag,
                ),
                Step::Panic(_) => false,
                Step::Fault => !fits(old(self).pending(), reply@),
            },
    {
        if self.stage == 0 {
            match reply {
                Reply::Nothing => {
                    let next = ApiCall::ToBoolean(-1);
                    self.tape.record(&reply);
                    self.tape.expect(&next);
                    self.stage = 1;
                    Step::Call(next)
                },
                _ => Step::Fault,
            }
        } else if self.stage == 1 {
            match reply {
                Reply::Int(b) => {
                    let next = ApiCall::SetTop(-2);
                    self.tape.record(&reply);
                    self.tape.expect(&next);
                    self.flag = lua_boolean(b);
                    self.stage = 2;
                    Step::Call(next)
                },
                _ => Step::Fault,
            }
        } else {
            match reply {
                Reply::Nothing => Step::Done(self.flag),
                _ => Step::Fault,
            }
        }
    }
}

} // verus!
