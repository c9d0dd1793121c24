//! How each call changes the Lua stack, after the Lua 5.1 reference manual's
//! `[-o, +p]` notes, and what it means for a log to follow it. A stack is the
//! sequence of its values, bottom first; a value is named by an integer, so
//! that two positions hold the same value exactly when they hold equal names.
use vstd::prelude::*;
use crate::api::{Answer, Exchange, Op};
use crate::consts::LUA_REGISTRYINDEX;

verus! {

/// The position (from 0, bottom first) that the stack index `index` denotes on
/// a stack of `len` values, if it denotes one: positive indices count from the
/// bottom, negative ones (above the pseudo-indices) from the top.
pub open spec fn position(index: i32, len: int) -> Option<int> {
    if 0 < index && index <= len {
        Some(index - 1)
    } else if LUA_REGISTRYINDEX < index && index < 0 && -index <= len {
        Some(len + index)
    } else {
        None
    }
}

/// `after` is `before` with one value pushed.
pub open spec fn pushed(before: Seq<int>, after: Seq<int>) -> bool {
    after.len() == before.len() + 1 && after.take(before.len() as int) == before
}

/// `after` is `before` with values pushed (none, one or more).
pub open spec fn extends(before: Seq<int>, after: Seq<int>) -> bool {
    after.len() >= before.len() && after.take(before.len() as int) == before
}

/// Whether `call`, answered by `answer`, may take the stack `before` to
/// `after`. `lua_gettop` also reports the size it sees; `lua_tolstring` may
/// convert the value it reads in place. Where the manual leaves an effect open
/// here (a coroutine's resume, a new state, `lua_getinfo` with `>`, a
/// multi-result call, an index that is not acceptable), nothing is constrained;
/// `lua_typename` is left open too, since the host's version may push values.
pub open spec fn moves(call: Op, answer: Answer, before: Seq<int>, after: Seq<int>) -> bool {
    let n = before.len() as int;
    match call {
        Op::GetTop => after == before && (answer matches Answer::Int(k) && k == n),
        Op::SetTop(i) => if i >= 0 {
            after.len() == i && (i <= n ==> after == before.take(i as int)) && (i > n ==> extends(
                before,
                after,
            ))
        } else {
            n + i + 1 >= 0 ==> after == before.take(n + i + 1)
        },
        Op::Remove(i) => position(i, n) matches Some(p) ==> after == before.remove(p),
        Op::PushValue(i) => match position(i, n) {
            Some(p) => after == before.push(before[p]),
            None => pushed(before, after),
        },
        Op::PushString(_) | Op::PushBoolean(_) | Op::RawGetI(_, _) | Op::PushFinalizer
        | Op::CreateTable(_, _) | Op::GetField(_, _) | Op::NewUserdata(_) | Op::LoadString(_)
        | Op::LoadBuffer(_, _) | Op::LoadFile(_) => pushed(before, after),
        Op::SetField(_, _) | Op::SetMetatable(_) => n >= 1 ==> after == before.take(n - 1),
        Op::GetMetatable(_) => if answer == Answer::Int(0) {
            after == before
        } else {
            pushed(before, after)
        },
        Op::Call(nargs, nresults) => nargs >= 0 && nargs + 1 <= n && nresults >= 0 ==> {
            &&& after.len() == n - nargs - 1 + nresults
            &&& after.take(n - nargs - 1) == before.take(n - nargs - 1)
        },
        Op::PCall(nargs, nresults, _) => nargs >= 0 && nargs + 1 <= n ==> if answer == Answer::Int(
            0,
        ) {
            nresults >= 0 ==> after.len() == n - nargs - 1 + nresults && after.take(n - nargs - 1)
                == before.take(n - nargs - 1)
        } else {
            after.len() == n - nargs && after.take(n - nargs - 1) == before.take(n - nargs - 1)
        },
        Op::ToLString(i) | Op::CheckLString(i) => {
            &&& after.len() == n
            &&& forall|j: int|
                0 <= j < n && position(i, n) != Some(j) ==> #[trigger] after[j] == before[j]
        },
        Op::Type(_) | Op::ToBoolean(_) | Op::ToNumber(_) | Op::ToUserdata(_) | Op::RawEqual(_, _)
        | Op::CheckType(_, _) | Op::GetStack(_) | Op::ReportError(_) | Op::ReportStatus(_, _) => after
            == before,
        Op::TypeName(_) | Op::Resume(_) | Op::NewState | Op::OpenLibs | Op::GetInfo(_)
        | Op::Error => true,
    }
}

/// `stacks[k]` is the stack before the `k`-th exchange of `log`, and each
/// exchange changes it as [`moves`] allows.
pub open spec fn follows(log: Seq<Exchange>, stacks: Seq<Seq<int>>) -> bool {
    &&& stacks.len() == log.len() + 1
    &&& forall|k: int|
        #![trigger log[k]]
        0 <= k < log.len() ==> moves(log[k].call, log[k].answer, stacks[k], stacks[k + 1])
}

/// The stack after the whole log.
pub open spec fn final_stack(stacks: Seq<Seq<int>>) -> Seq<int> {
    stacks[stacks.len() - 1]
}

} // verus!
