//! What the conversations promise as a whole, over the stack model of `model`.
use vstd::prelude::*;
use vstd::string::StringSliceAdditionalSpecFns;
use crate::api::{Answer, Exchange, Op};
use crate::consts::{
    LUA_ERRMEM, LUA_ERRRUN, LUA_GLOBALSINDEX, LUA_OK, LUA_TBOOLEAN, LUA_TNIL, LUA_TNONE, LUA_YIELD,
};
use crate::dump::{
    dump_stack_conversation, dump_val_conversation, dumped_of, entries_conversation,
    inspect_conversation, inspect_len, DumpedV, EntryV, ShownV,
};
use crate::errors::{
    error_report_conversation, pcall_ignore_conversation, raise_conversation, report_exchanges,
    report_panics, resume_call_raises, resume_call_returns, resume_pcall_ignore_conversation,
};
use crate::flag::{global_flag_conversation, realm_key, Realm};
use crate::model::{extends, final_stack, follows, moves, position, pushed};
use crate::query::{
    check_boolean_conversation, load_conversation, lookup_conversation, new_state_conversation,
    none_or_nil_conversation, read_string_conversation, type_of_conversation,
    type_test_conversation, LookupV,
};
use crate::state::spec_upvalue_index;
use crate::text::{lossy_opt, utf8_lossy};
use crate::typename::type_name_conversation;
use crate::userdata::{
    has_metatable, new_userdata_conversation, new_userdata_exchanges, test_userdata_conversation,
    test_userdata_exchanges, userdata_prelude,
};

verus! {

proof fn take_all(s: Seq<int>)
    ensures
        s.take(s.len() as int) == s,
{
    assert(s.take(s.len() as int) =~= s);
}

proof fn take_take(s: Seq<int>, a: int, b: int)
    requires
        0 <= a <= b <= s.len(),
    ensures
        s.take(b).take(a) == s.take(a),
{
    assert(s.take(b).take(a) =~= s.take(a));
}

proof fn push_is_pushed(s: Seq<int>, x: int)
    ensures
        pushed(s, s.push(x)),
{
    assert(s.push(x).take(s.len() as int) =~= s);
}

/// A push by `lua_pushvalue` is a push.
proof fn push_value_pushes(i: i32, s0: Seq<int>, s1: Seq<int>)
    requires
        moves(Op::PushValue(i), Answer::Nothing, s0, s1),
    ensures
        pushed(s0, s1),
{
    if let Some(p) = position(i, s0.len() as int) {
        push_is_pushed(s0, s0[p]);
    }
}

/// `pop_n(count)` takes exactly the top `count` values off a stack that holds at
/// least that many.
pub proof fn pop_n_pops(count: i32, before: Seq<int>, after: Seq<int>)
    requires
        0 <= count <= before.len(),
        moves(Op::SetTop((-count - 1) as i32), Answer::Nothing, before, after),
    ensures
        after == before.take(before.len() - count),
{
}

/// The calls that push exactly one value.
pub open spec fn pushes_one(call: Op) -> bool {
    call is PushValue || call is PushString || call is PushBoolean || call is RawGetI
        || call is CreateTable || call is GetField || call is PushFinalizer
}

/// A value pushed and then popped leaves the stack as it was.
pub proof fn pop_undoes_push(call: Op, s0: Seq<int>, s1: Seq<int>, s2: Seq<int>)
    requires
        pushes_one(call),
        moves(call, Answer::Nothing, s0, s1),
        moves(Op::SetTop(-2i32), Answer::Nothing, s1, s2),
    ensures
        s2 == s0,
{
    if let Op::PushValue(i) = call {
        push_value_pushes(i, s0, s1);
    }
}

/// Reading a realm flag leaves the Lua stack as it found it.
pub proof fn global_flag_keeps_stack(key: Seq<u8>, log: Seq<Exchange>, flag: bool, stacks: Seq<Seq<int>>)
    requires
        global_flag_conversation(key, log, flag),
        follows(log, stacks),
    ensures
        final_stack(stacks) == stacks[0],
{
    let _ = (log[0], log[1], log[2]);
}

/// `test_userdata` leaves the stack as it found it, on every path.
pub proof fn test_userdata_keeps_stack(index: i32, name: Seq<u8>, log: Seq<Exchange>, out: bool, stacks: Seq<Seq<int>>)
    requires
        test_userdata_conversation(index, name, log, out),
        follows(log, stacks),
    ensures
        final_stack(stacks) == stacks[0],
{
    let (p, m, e) = choose|p: bool, m: i32, e: i32|
        log == test_userdata_exchanges(index, name, p, m, e) && out == (p && m != 0
            && crate::api::is_true(e));
    assert(log == test_userdata_exchanges(index, name, p, m, e));
    let _ = log[0];
    if p {
        let _ = log[1];
        if m != 0 {
            let _ = (log[2], log[3], log[4]);
            let n = stacks[0].len() as int;
            take_take(stacks[3], n, n + 1);
        }
    }
}

/// `is_none_or_nil` leaves the stack as it found it.
pub proof fn none_or_nil_keeps_stack(index: i32, log: Seq<Exchange>, out: bool, stacks: Seq<Seq<int>>)
    requires
        none_or_nil_conversation(index, log, out),
        follows(log, stacks),
    ensures
        final_stack(stacks) == stacks[0],
{
    let _ = log[0];
    if log.len() == 2 {
        let _ = log[1];
    }
}

/// `check_boolean` leaves the stack as it found it.
pub proof fn check_boolean_keeps_stack(arg: i32, log: Seq<Exchange>, out: bool, stacks: Seq<Seq<int>>)
    requires
        check_boolean_conversation(arg, log, out),
        follows(log, stacks),
    ensures
        final_stack(stacks) == stacks[0],
{
    let _ = (log[0], log[1]);
}

/// `lua_type_name` pops whatever `lua_typename` pushed: when that call only
/// pushes values, the stack ends as it began; in any case it ends as the stack
/// after `lua_typename`, cut back to its size before.
pub proof fn type_name_restores_stack(type_id: i32, log: Seq<Exchange>, name: Seq<char>, stacks: Seq<Seq<int>>)
    requires
        type_name_conversation(type_id, log, name),
        follows(log, stacks),
    ensures
        final_stack(stacks) == if stacks[2].len() > stacks[0].len() {
            stacks[2].take(stacks[0].len() as int)
        } else {
            stacks[2]
        },
        extends(stacks[1], stacks[2]) ==> final_stack(stacks) == stacks[0],
{
    let _ = (log[0], log[1], log[2], log[3]);
    take_all(stacks[2]);
}

/// Describing a value leaves the stack as it found it, when `lua_typename` only
/// pushes values.
pub proof fn inspect_keeps_stack(index: i32, log: Seq<Exchange>, entry: EntryV, stacks: Seq<Seq<int>>)
    requires
        inspect_conversation(index, log, entry),
        follows(log, stacks),
        extends(stacks[2], stacks[3]),
    ensures
        final_stack(stacks) == stacks[0],
{
    let names = log.subrange(1, 5);
    let _ = (log[0], log[1], log[2], log[3], log[4]);
    assert(names[0] == log[1] && names[1] == log[2] && names[2] == log[3] && names[3] == log[4]);
    take_all(stacks[3]);
    assert(stacks[5] == stacks[0]);
    if log.len() == 8 {
        let _ = (log[5], log[6], log[7]);
        let n = stacks[0].len() as int;
        push_value_pushes(index, stacks[5], stacks[6]);
        assert(position(-1i32, n + 1) == Some(n));
        assert(stacks[8] =~= stacks[6].take(n));
    }
}

/// `dump_val` leaves the stack as it found it, when `lua_typename` only pushes
/// values.
pub proof fn dump_val_keeps_stack(index: i32, log: Seq<Exchange>, out: Option<DumpedV>, stacks: Seq<Seq<int>>)
    requires
        dump_val_conversation(index, log, out),
        follows(log, stacks),
        extends(stacks[2], stacks[3]),
    ensures
        final_stack(stacks) == stacks[0],
{
    let entry = choose|entry: EntryV|
        #[trigger] inspect_conversation(index, log, entry) && dumped_of(entry) == out;
    inspect_keeps_stack(index, log, entry, stacks);
}

/// Each `lua_typename` in `log` only pushes values.
pub open spec fn type_names_extend(log: Seq<Exchange>, stacks: Seq<Seq<int>>) -> bool {
    forall|k: int|
        0 <= k < log.len() && #[trigger] log[k].call is TypeName ==> extends(stacks[k], stacks[k + 1])
}

proof fn follows_split(log: Seq<Exchange>, stacks: Seq<Seq<int>>, cut: int)
    requires
        follows(log, stacks),
        0 <= cut <= log.len(),
    ensures
        follows(log.take(cut), stacks.take(cut + 1)),
        follows(log.skip(cut), stacks.skip(cut)),
{
    let a = log.take(cut);
    let sa = stacks.take(cut + 1);
    assert forall|k: int| 0 <= k < a.len() implies moves(a[k].call, a[k].answer, sa[k], sa[k + 1]) by {
        let _ = log[k];
    }
    let b = log.skip(cut);
    let sb = stacks.skip(cut);
    assert forall|k: int| 0 <= k < b.len() implies moves(b[k].call, b[k].answer, sb[k], sb[k + 1]) by {
        let _ = log[k + cut];
    }
}

proof fn entries_keep_stack(log: Seq<Exchange>, entries: Seq<EntryV>, stacks: Seq<Seq<int>>)
    requires
        entries_conversation(log, entries),
        follows(log, stacks),
        type_names_extend(log, stacks),
    ensures
        final_stack(stacks) == stacks[0],
    decreases entries.len(),
{
    if entries.len() > 0 {
        let last = entries.last();
        let cut = log.len() - inspect_len(last.kind);
        follows_split(log, stacks, cut);
        let a = log.take(cut);
        let b = log.skip(cut);
        let sa = stacks.take(cut + 1);
        assert forall|k: int| 0 <= k < a.len() && #[trigger] a[k].call is TypeName implies extends(
            sa[k],
            sa[k + 1],
        ) by {
            assert(a[k] == log[k]);
        }
        entries_keep_stack(a, entries.drop_last(), sa);
        assert(b[2] == log[cut + 2]);
        assert(b[2].call is TypeName) by {
            assert(b.subrange(1, 5)[1] == b[2]);
        }
        inspect_keeps_stack(entries.len() as i32, b, last, stacks.skip(cut));
    }
}

/// `dump_stack` leaves the stack as it found it, when `lua_typename` only
/// pushes values.
pub proof fn dump_stack_keeps_stack(log: Seq<Exchange>, size: i32, entries: Seq<EntryV>, stacks: Seq<Seq<int>>)
    requires
        dump_stack_conversation(log, size, entries),
        follows(log, stacks),
        type_names_extend(log, stacks),
    ensures
        final_stack(stacks) == stacks[0],
{
    let _ = log[0];
    follows_split(log, stacks, 1);
    let b = log.skip(1);
    let sb = stacks.skip(1);
    assert forall|k: int| 0 <= k < b.len() && #[trigger] b[k].call is TypeName implies extends(
        sb[k],
        sb[k + 1],
    ) by {
        assert(b[k] == log[k + 1]);
    }
    entries_keep_stack(b, entries, sb);
}

/// Reporting an ignored error that completes takes exactly the error value off
/// the top of the stack and leaves the values below it as they were.
pub proof fn error_report_pops_error(checked: bool, log: Seq<Exchange>, stacks: Seq<Seq<int>>)
    requires
        error_report_conversation(checked, log, false),
        follows(log, stacks),
        stacks[0].len() >= 1,
    ensures
        final_stack(stacks) == stacks[0].take(stacks[0].len() - 1),
{
    let (t, o) = choose|t: i32, o: Option<Seq<u8>>|
        log == report_exchanges(checked, t, o) && false == report_panics(checked, t, o);
    assert(log == report_exchanges(checked, t, o));
    let n = stacks[0].len() as int;
    let _ = (log[0], log[1], log[2], log[3], log[4]);
    assert(position(-2i32, n + 1) == Some(n - 1));
    if log.len() == 6 {
        let _ = log[5];
        if t == crate::consts::LUA_TNIL {
            assert(final_stack(stacks) =~= stacks[0].take(n - 1));
        } else {
            take_take(stacks[4], n, n + 1);
            take_take(stacks[5], n - 1, n);
            take_take(stacks[4], n - 1, n);
            assert(final_stack(stacks) =~= stacks[0].take(n - 1));
        }
    } else {
        take_take(stacks[4], n - 1, n);
        assert(stacks[3].take(n) =~= stacks[2].take(n));
        assert(final_stack(stacks) =~= stacks[0].take(n - 1));
    }
}

/// `pcall_ignore` answers whether the call succeeded. Where the function and its
/// arguments are on the stack: a success leaves the values below them and the
/// results; a runtime error leaves just the values below them (the error value
/// consumed by its report); any other error also leaves its error value on top.
pub proof fn pcall_ignore_stack(
    checked: bool,
    nargs: i32,
    nresults: i32,
    log: Seq<Exchange>,
    out: bool,
    stacks: Seq<Seq<int>>,
)
    requires
        pcall_ignore_conversation(checked, nargs, nresults, log, Some(out)),
        follows(log, stacks),
        0 <= nargs,
        nargs + 1 <= stacks[0].len(),
    ensures
        out <==> log[0].answer == Answer::Int(LUA_OK),
        ({
            let below = stacks[0].len() - nargs - 1;
            let last = final_stack(stacks);
            &&& log[0].answer == Answer::Int(LUA_OK) && nresults >= 0 ==> last.len() == below
                + nresults && last.take(below) == stacks[0].take(below)
            &&& log[0].answer == Answer::Int(LUA_ERRRUN) ==> last == stacks[0].take(below)
            &&& log[0].answer != Answer::Int(LUA_OK) && log[0].answer != Answer::Int(LUA_ERRRUN)
                ==> last.len() == below + 1 && last.take(below) == stacks[0].take(below)
        }),
{
    let _ = log[0];
    let below = stacks[0].len() - nargs - 1;
    if log[0].answer == Answer::Int(LUA_ERRRUN) {
        follows_split(log, stacks, 1);
        error_report_pops_error(checked, log.skip(1), stacks.skip(1));
        take_take(stacks[1], below, below);
    } else if log.len() == 2 {
        let _ = log[1];
    }
}

/// A runtime error in a coroutine resumed by `coroutine_resume_pcall_ignore` is
/// reported, its error value popped from the coroutine's stack, and an error
/// returned.
pub proof fn resume_pcall_ignore_pops_error(
    checked: bool,
    narg: i32,
    log: Seq<Exchange>,
    out: Result<i32, ()>,
    stacks: Seq<Seq<int>>,
)
    requires
        resume_pcall_ignore_conversation(checked, narg, log, Some(out)),
        follows(log, stacks),
        log[0].answer == Answer::Int(LUA_ERRRUN),
        stacks[1].len() >= 1,
    ensures
        out == Err::<i32, ()>(()),
        final_stack(stacks) == stacks[1].take(stacks[1].len() - 1),
{
    let _ = log[0];
    follows_split(log, stacks, 1);
    error_report_pops_error(checked, log.skip(1), stacks.skip(1));
}

/// After the exchanges before the allocation, the metatable to attach (if any)
/// has been pushed and nothing else has changed.
proof fn userdata_prelude_stack(needs_drop: bool, metatable: Option<i32>, log: Seq<Exchange>, stacks: Seq<Seq<int>>)
    requires
        follows(log, stacks),
        log.len() >= userdata_prelude(needs_drop, metatable).len(),
        forall|k: int|
            0 <= k < userdata_prelude(needs_drop, metatable).len() ==> log[k] == userdata_prelude(
                needs_drop,
                metatable,
            )[k],
    ensures
        ({
            let p = userdata_prelude(needs_drop, metatable).len() as int;
            if has_metatable(needs_drop, metatable) {
                pushed(stacks[0], stacks[p])
            } else {
                p == 0
            }
        }),
{
    let pre = userdata_prelude(needs_drop, metatable);
    if needs_drop {
        let _ = (log[0], log[1], log[2]);
        assert(log[0] == pre[0] && log[1] == pre[1] && log[2] == pre[2]);
        if let Some(m) = metatable {
            push_value_pushes(m, stacks[0], stacks[1]);
        }
        let n = stacks[0].len() as int;
        take_take(stacks[2], n, n + 1);
    } else if let Some(m) = metatable {
        let _ = log[0];
        assert(log[0] == pre[0]);
        push_value_pushes(m, stacks[0], stacks[1]);
    }
}

/// `new_userdata` pushes the new userdata (the value that `lua_newuserdata`
/// pushed ends on top). Without a metatable nothing else changes. With one, on
/// a stack that held at least one value, the value that was on top is removed
/// as well, so the stack keeps its size.
pub proof fn new_userdata_stack(needs_drop: bool, metatable: Option<i32>, size: usize, log: Seq<Exchange>, stacks: Seq<Seq<int>>)
    requires
        new_userdata_conversation(needs_drop, metatable, size, log),
        follows(log, stacks),
    ensures
        ({
            let p = userdata_prelude(needs_drop, metatable).len() as int;
            let n = stacks[0].len() as int;
            let u = stacks[p + 1].last();
            &&& !has_metatable(needs_drop, metatable) ==> final_stack(stacks) == stacks[0].push(u)
            &&& has_metatable(needs_drop, metatable) && n >= 1 ==> final_stack(stacks)
                == stacks[0].take(n - 1).push(u)
        }),
{
    let (set, top1, top2) = choose|set: i32, top1: i32, top2: i32|
        top1 >= 0 && top2 >= 0 && log == new_userdata_exchanges(
            needs_drop,
            metatable,
            size,
            set,
            top1,
            top2,
        );
    assert(log == new_userdata_exchanges(needs_drop, metatable, size, set, top1, top2));
    let pre = userdata_prelude(needs_drop, metatable);
    let p = pre.len() as int;
    let n = stacks[0].len() as int;
    assert forall|k: int| 0 <= k < p implies log[k] == pre[k] by {}
    userdata_prelude_stack(needs_drop, metatable, log, stacks);
    let _ = log[p];
    let u = stacks[p + 1].last();
    if !has_metatable(needs_drop, metatable) {
        assert(stacks[1] =~= stacks[0].push(u));
    } else if n >= 1 {
        let _ = (log[p + 1], log[p + 2], log[p + 3], log[p + 4], log[p + 5], log[p + 6]);
        take_take(stacks[p + 1], n, n + 1);
        let s1 = stacks[p + 1];
        assert(s1 =~= stacks[0].push(s1[n]).push(u));
        assert(position(-2i32, n + 2) == Some(n));
        assert(stacks[p + 3] =~= s1);
        assert(top1 == n + 2);
        assert(position((top1 - 1) as i32, n + 2) == Some(n));
        assert(stacks[p + 5] =~= stacks[0].push(u));
        assert(top2 == n + 1);
        assert(position((top2 - 1) as i32, n + 1) == Some(n - 1));
        assert(stacks[p + 7] =~= stacks[0].take(n - 1).push(u));
    }
}

/// `test_userdata` first asks `lua_touserdata`, and answers true only for a
/// value that it found to be a userdata (a non-null pointer) with a metatable
/// that is raw-equal to the registry's `name` entry; where `lua_touserdata`
/// answers null, nothing more is asked and the answer is false. Whenever the
/// three checks pass, the answer is true.
pub proof fn test_userdata_needs_userdata(index: i32, name: Seq<u8>, log: Seq<Exchange>, out: bool)
    requires
        test_userdata_conversation(index, name, log, out),
    ensures
        log[0].call == Op::ToUserdata(index),
        out ==> {
            &&& log[0].answer == Answer::Pointer(true)
            &&& log.len() == 5
            &&& log[1].call == Op::GetMetatable(index)
            &&& log[1].answer != Answer::Int(0)
            &&& log[2].call == Op::GetField(crate::consts::LUA_REGISTRYINDEX, name)
            &&& log[3].call == Op::RawEqual(-1i32, -2i32)
            &&& log[3].answer == Answer::Int(1)
        },
        log[0].answer == Answer::Pointer(false) ==> !out && log.len() == 1,
        log.len() == 5 && log[0].answer == Answer::Pointer(true) && log[1].answer != Answer::Int(0)
            && log[3].answer == Answer::Int(1) ==> out,
{
    let (p, m, e) = choose|p: bool, m: i32, e: i32|
        log == test_userdata_exchanges(index, name, p, m, e) && out == (p && m != 0
            && crate::api::is_true(e));
    assert(log == test_userdata_exchanges(index, name, p, m, e));
    let _ = log[0];
    if p {
        let _ = log[1];
        if m != 0 {
            let _ = (log[2], log[3], log[4]);
        }
    }
}

/// `get_string` (and `check_string`) answers `None` exactly when
/// `lua_tolstring` answers null; for any byte string, the empty one included,
/// it answers those bytes decoded lossily.
pub proof fn read_string_answers_bytes(index: i32, required: bool, log: Seq<Exchange>, out: Option<Seq<char>>)
    requires
        read_string_conversation(index, required, log, out),
    ensures
        log.len() == 1,
        log[0].call == if required {
            Op::CheckLString(index)
        } else {
            Op::ToLString(index)
        },
        out is None <==> log[0].answer == Answer::Text(None),
        forall|b: Seq<u8>| log[0].answer == Answer::Text(Some(b)) ==> out == Some(utf8_lossy(b)),
{
}

/// A type test answers whether `lua_type` gave the expected type code.
pub proof fn type_test_compares_type(index: i32, expected: i32, log: Seq<Exchange>, out: bool, t: i32)
    requires
        type_test_conversation(index, expected, log, out),
        log[0].answer == Answer::Int(t),
    ensures
        log.len() == 1,
        log[0].call == Op::Type(index),
        out == (t == expected),
{
}

/// `is_none_or_nil` only asks `lua_type` of the value, and, where every answer
/// gives the same type `t`, answers true exactly when `t` is nil or none: a
/// boolean, number, string, table, function, userdata or thread gives false.
pub proof fn none_or_nil_is_nil_or_none(index: i32, log: Seq<Exchange>, out: bool, t: i32)
    requires
        none_or_nil_conversation(index, log, out),
        forall|k: int| 0 <= k < log.len() ==> #[trigger] log[k].answer == Answer::Int(t),
    ensures
        1 <= log.len() <= 2,
        forall|k: int| 0 <= k < log.len() ==> #[trigger] log[k].call == Op::Type(index),
        out == (t == LUA_TNIL || t == LUA_TNONE),
{
    let _ = log[0];
    if log.len() == 2 {
        let _ = log[1];
    }
}

/// What is read of a value follows its type name alone: a "string" is read as
/// text, a "boolean" as a boolean, a "number" as a number, and a value of any
/// other type is not read at all.
pub open spec fn read_by_kind(entry: EntryV) -> bool {
    &&& entry.value is Text <==> entry.kind == "string"@
    &&& entry.value is Boolean <==> entry.kind == "boolean"@
    &&& entry.value is Number <==> entry.kind == "number"@
    &&& entry.value is Plain <==> !(entry.kind == "string"@ || entry.kind == "boolean"@
        || entry.kind == "number"@)
}

/// Describing a value reads it only when its type name is "string",
/// "boolean" or "number", by the matching call; for any other type the
/// description is the type name alone, after five calls that only ask the type.
pub proof fn inspect_reads_by_kind(index: i32, log: Seq<Exchange>, entry: EntryV)
    requires
        inspect_conversation(index, log, entry),
    ensures
        entry.index == index,
        log[0].call == Op::Type(index),
        log[0].answer matches Answer::Int(t) && log[2].call == Op::TypeName(t),
        read_by_kind(entry),
        log[2].answer matches Answer::Text(Some(bytes)) && entry.kind == utf8_lossy(bytes),
        log.len() == 8 ==> log[5].call == Op::PushValue(index) && log[7].call == Op::SetTop(-2i32),
        entry.kind == "string"@ ==> forall|o: Option<Seq<u8>>|
            log[6].answer == Answer::Text(o) ==> entry.value == ShownV::Text(lossy_opt(o)),
        entry.kind == "boolean"@ ==> entry.value == ShownV::Boolean(log[6].answer == Answer::Int(1)),
        entry.kind == "number"@ ==> forall|bits: u64|
            log[6].answer == Answer::Number(bits) ==> entry.value == ShownV::Number(bits),
        !(entry.kind == "string"@ || entry.kind == "boolean"@ || entry.kind == "number"@) ==> {
            &&& log.len() == 5
            &&& entry.value == ShownV::Plain
        },
        entry.kind == "string"@ ==> log.len() == 8 && log[6].call == Op::ToLString(-1i32),
        entry.kind == "boolean"@ ==> log.len() == 8 && log[6].call == Op::ToBoolean(-1i32),
        entry.kind == "number"@ ==> log.len() == 8 && log[6].call == Op::ToNumber(-1i32),
{
    let names = log.subrange(1, 5);
    assert(names[1] == log[2]);
    assert(names[0] == log[1]);
    reveal_strlit("string");
    reveal_strlit("boolean");
    reveal_strlit("number");
    assert("string"@ != "boolean"@ && "string"@ != "number"@ && "boolean"@ != "number"@) by {
        assert("string"@[0] != "boolean"@[0] && "string"@[0] != "number"@[0] && "boolean"@[0]
            != "number"@[0]);
    }
    if entry.kind == "string"@ {
    } else if entry.kind == "boolean"@ {
        assert(entry.kind != "string"@);
    } else if entry.kind == "number"@ {
        assert(entry.kind != "string"@ && entry.kind != "boolean"@);
    }
}

/// `dump_val` renders a value by its type name: as text, a boolean or a number
/// only for a "string", "boolean" or "number"; a value of any other type is
/// rendered as the name of its type.
pub proof fn dump_val_by_kind(index: i32, log: Seq<Exchange>, out: Option<DumpedV>, bytes: Seq<u8>)
    requires
        dump_val_conversation(index, log, out),
        log[2].answer == Answer::Text(Some(bytes)),
    ensures
        !(utf8_lossy(bytes) == "string"@ || utf8_lossy(bytes) == "boolean"@ || utf8_lossy(bytes)
            == "number"@) ==> out == Some(DumpedV::Kind(utf8_lossy(bytes))),
        out matches Some(DumpedV::Text(_)) ==> utf8_lossy(bytes) == "string"@,
        out matches Some(DumpedV::Boolean(_)) ==> utf8_lossy(bytes) == "boolean"@,
        out matches Some(DumpedV::Number(_)) ==> utf8_lossy(bytes) == "number"@,
        out is None <==> utf8_lossy(bytes) == "string"@ && log[6].answer == Answer::Text(None),
        utf8_lossy(bytes) == "string"@ ==> forall|b: Seq<u8>|
            log[6].answer == Answer::Text(Some(b)) ==> out == Some(DumpedV::Text(utf8_lossy(b))),
        utf8_lossy(bytes) == "boolean"@ ==> out == Some(DumpedV::Boolean(log[6].answer == Answer::Int(1))),
        utf8_lossy(bytes) == "number"@ ==> forall|bits: u64|
            log[6].answer == Answer::Number(bits) ==> out == Some(DumpedV::Number(bits)),
{
    let entry = choose|entry: EntryV|
        #[trigger] inspect_conversation(index, log, entry) && dumped_of(entry) == out;
    inspect_reads_by_kind(index, log, entry);
}

proof fn entries_read_by_kind(log: Seq<Exchange>, entries: Seq<EntryV>)
    requires
        entries_conversation(log, entries),
        entries.len() <= 0x7fff_ffff,
    ensures
        forall|i: int|
            #![trigger entries[i]]
            0 <= i < entries.len() ==> {
            &&& entries[i].index == i + 1
            &&& read_by_kind(entries[i])
        },
    decreases entries.len(),
{
    if entries.len() > 0 {
        let last = entries.last();
        let cut = log.len() - inspect_len(last.kind);
        entries_read_by_kind(log.take(cut), entries.drop_last());
        inspect_reads_by_kind(entries.len() as i32, log.skip(cut), last);
        assert forall|i: int|
            #![trigger entries[i]]
            0 <= i < entries.len() implies {
            &&& entries[i].index == i + 1
            &&& read_by_kind(entries[i])
        } by {
            if i < entries.len() - 1 {
                assert(entries[i] == entries.drop_last()[i]);
            }
        }
    }
}

/// `dump_stack` describes the values at indices 1 up to the top, in order,
/// each read only as its type name calls for.
pub proof fn dump_stack_reads_by_kind(log: Seq<Exchange>, size: i32, entries: Seq<EntryV>)
    requires
        dump_stack_conversation(log, size, entries),
    ensures
        log[0].call == Op::GetTop,
        log[0].answer == Answer::Int(size),
        entries.len() == size,
        forall|i: int|
            #![trigger entries[i]]
            0 <= i < entries.len() ==> {
            &&& entries[i].index == i + 1
            &&& read_by_kind(entries[i])
        },
{
    entries_read_by_kind(log.skip(1), entries);
}

/// When a metatable index `m` is given, `new_userdata` first pushes a copy of
/// the value at `m`, and the metatable that it sets on the new userdata is that
/// value: at the one `lua_setmetatable`, the value on top is the one that was
/// at `m`, and the value below it the userdata that `lua_newuserdata` pushed.
pub proof fn new_userdata_sets_given_metatable(
    needs_drop: bool,
    m: i32,
    size: usize,
    log: Seq<Exchange>,
    stacks: Seq<Seq<int>>,
)
    requires
        new_userdata_conversation(needs_drop, Some(m), size, log),
        follows(log, stacks),
        position(m, stacks[0].len() as int) is Some,
    ensures
        log[0].call == Op::PushValue(m),
        exists|k: int| 0 <= k < log.len() && #[trigger] log[k].call == Op::SetMetatable(-2i32),
        forall|k: int|
            0 <= k < log.len() && #[trigger] log[k].call is SetMetatable ==> {
                &&& log[k].call == Op::SetMetatable(-2i32)
                &&& stacks[k].len() >= 2
                &&& stacks[k].last() == stacks[0][position(m, stacks[0].len() as int)->0]
                &&& forall|j: int|
                    0 <= j < log.len() && #[trigger] log[j].call is NewUserdata ==> stacks[k][stacks[k].len()
                        - 2] == stacks[j + 1].last()
            },
{
    let (set, top1, top2) = choose|set: i32, top1: i32, top2: i32|
        top1 >= 0 && top2 >= 0 && log == new_userdata_exchanges(
            needs_drop,
            Some(m),
            size,
            set,
            top1,
            top2,
        );
    assert(log == new_userdata_exchanges(needs_drop, Some(m), size, set, top1, top2));
    let pre = userdata_prelude(needs_drop, Some(m));
    let q = pre.len() as int;
    let n = stacks[0].len() as int;
    let p = position(m, n)->0;
    let v = stacks[0][p];
    let _ = (log[0], log[q], log[q + 1], log[q + 2], log[q + 3], log[q + 4], log[q + 5], log[q + 6]);
    assert(log[0] == pre[0]);
    let s1 = stacks[0].push(v);
    if needs_drop {
        let _ = (log[1], log[2]);
        assert(log[1] == pre[1] && log[2] == pre[2]);
        take_take(stacks[2], n + 1, n + 2);
        assert(stacks[3] =~= s1);
    }
    assert(stacks[q] == s1);
    let u = stacks[q + 1].last();
    take_take(stacks[q + 1], n + 1, n + 2);
    assert(stacks[q + 1] =~= s1.push(u));
    assert(position(-2i32, n + 2) == Some(n));
    let k0 = q + 2;
    assert(stacks[k0] =~= s1.push(u).push(v));
    assert(log[k0].call == Op::SetMetatable(-2i32));
    assert forall|k: int| 0 <= k < log.len() && #[trigger] log[k].call is SetMetatable implies k == k0 by {
        if needs_drop {
            let _ = (log[1], log[2]);
        }
    }
    assert forall|j: int| 0 <= j < log.len() && #[trigger] log[j].call is NewUserdata implies j == q by {
        if needs_drop {
            let _ = (log[1], log[2]);
        }
    }
}

/// For a type that needs dropping, `new_userdata` sets `__gc`, to the finaliser
/// it pushed just before, on the very table that it then sets as the new
/// userdata's metatable; with no metatable index given, that table is a new
/// one.
pub proof fn new_userdata_sets_gc(metatable: Option<i32>, size: usize, log: Seq<Exchange>, stacks: Seq<Seq<int>>)
    requires
        new_userdata_conversation(true, metatable, size, log),
        follows(log, stacks),
        metatable matches Some(m) ==> position(m, stacks[0].len() as int) is Some,
    ensures
        metatable is None ==> log[0].call == Op::CreateTable(0i32, 0i32),
        exists|k: int| 0 <= k < log.len() && #[trigger] log[k].call == Op::SetField(-2i32, "__gc".spec_bytes()),
        forall|k: int, f: int, s: int|
            0 <= k < log.len() && 0 <= f < log.len() && 0 <= s < log.len() && #[trigger] log[k].call
                is SetField && #[trigger] log[f].call is PushFinalizer && #[trigger] log[s].call is SetMetatable
                ==> {
                &&& log[k].call == Op::SetField(-2i32, "__gc".spec_bytes())
                &&& f < k < s
                &&& stacks[k].len() >= 2
                &&& stacks[k].last() == stacks[f + 1].last()
                &&& stacks[k][stacks[k].len() - 2] == stacks[s].last()
            },
{
    let (set, top1, top2) = choose|set: i32, top1: i32, top2: i32|
        top1 >= 0 && top2 >= 0 && log == new_userdata_exchanges(true, metatable, size, set, top1, top2);
    assert(log == new_userdata_exchanges(true, metatable, size, set, top1, top2));
    let pre = userdata_prelude(true, metatable);
    let n = stacks[0].len() as int;
    let _ = (log[0], log[1], log[2], log[3], log[4], log[5], log[6], log[7], log[8], log[9]);
    assert(log[0] == pre[0] && log[1] == pre[1] && log[2] == pre[2]);
    let t = stacks[1].last();
    if let Some(m) = metatable {
        push_value_pushes(m, stacks[0], stacks[1]);
    }
    take_take(stacks[1], n, n + 1);
    let s1 = stacks[0].push(t);
    assert(stacks[1] =~= s1);
    let g = stacks[2].last();
    take_take(stacks[2], n + 1, n + 2);
    assert(stacks[2] =~= s1.push(g));
    assert(stacks[3] =~= s1);
    let u = stacks[4].last();
    take_take(stacks[4], n + 1, n + 2);
    assert(stacks[4] =~= s1.push(u));
    assert(position(-2i32, n + 2) == Some(n));
    assert(stacks[5] =~= s1.push(u).push(t));
    assert(log[2].call == Op::SetField(-2i32, "__gc".spec_bytes()));
    assert forall|k: int| 0 <= k < log.len() && #[trigger] log[k].call is SetField implies k == 2 by {}
    assert forall|f: int| 0 <= f < log.len() && #[trigger] log[f].call is PushFinalizer implies f == 1 by {}
    assert forall|s: int| 0 <= s < log.len() && #[trigger] log[s].call is SetMetatable implies s == 5 by {}
}

/// `new_userdata` sets a metatable on the new userdata exactly when the type
/// needs dropping or a metatable index is given; otherwise its one call is the
/// allocation.
pub proof fn new_userdata_metatable_when_needed(
    needs_drop: bool,
    metatable: Option<i32>,
    size: usize,
    log: Seq<Exchange>,
)
    requires
        new_userdata_conversation(needs_drop, metatable, size, log),
    ensures
        (exists|k: int| 0 <= k < log.len() && #[trigger] log[k].call is SetMetatable) <==> (needs_drop
            || metatable is Some),
        !needs_drop && metatable is None ==> log.len() == 1 && log[0].call == Op::NewUserdata(size),
{
    let (set, top1, top2) = choose|set: i32, top1: i32, top2: i32|
        top1 >= 0 && top2 >= 0 && log == new_userdata_exchanges(
            needs_drop,
            metatable,
            size,
            set,
            top1,
            top2,
        );
    assert(log == new_userdata_exchanges(needs_drop, metatable, size, set, top1, top2));
    let pre = userdata_prelude(needs_drop, metatable);
    let q = pre.len() as int;
    let _ = log[q];
    if needs_drop || metatable is Some {
        let _ = (log[q + 1], log[q + 2]);
        assert(log[q + 2].call is SetMetatable);
    } else {
        assert(log.len() == 1);
    }
}

/// Each realm is told by a global of its own: `CLIENT`, `SERVER` and
/// `MENU_DLL`.
pub proof fn realms_read_their_own_global(a: Realm, b: Realm)
    ensures
        a is Client ==> realm_key(a) == "CLIENT".spec_bytes(),
        a is Server ==> realm_key(a) == "SERVER".spec_bytes(),
        a is Menu ==> realm_key(a) == "MENU_DLL".spec_bytes(),
        realm_key(a) == realm_key(b) ==> a == b,
{
    reveal_strlit("CLIENT");
    reveal_strlit("SERVER");
    reveal_strlit("MENU_DLL");
    assert(vstd::string::is_ascii("CLIENT"));
    assert(vstd::string::is_ascii("SERVER"));
    assert(vstd::string::is_ascii("MENU_DLL"));
    vstd::string::is_ascii_spec_bytes("CLIENT");
    vstd::string::is_ascii_spec_bytes("SERVER");
    vstd::string::is_ascii_spec_bytes("MENU_DLL");
    if realm_key(a) == realm_key(b) {
        assert(realm_key(a)[0] == realm_key(b)[0]);
    }
}

/// A realm flag is the truth of the global `key`, as `lua_toboolean` reads the
/// value that fetching the global pushed.
pub proof fn global_flag_reads_pushed_global(key: Seq<u8>, log: Seq<Exchange>, flag: bool, stacks: Seq<Seq<int>>)
    requires
        global_flag_conversation(key, log, flag),
        follows(log, stacks),
    ensures
        log[0].call == Op::GetField(LUA_GLOBALSINDEX, key),
        log[1].call == Op::ToBoolean(-1i32),
        flag <==> log[1].answer == Answer::Int(1),
        pushed(stacks[0], stacks[1]),
        position(-1i32, stacks[1].len() as int) == Some(stacks[0].len() as int),
{
    let _ = (log[0], log[1], log[2]);
}

/// `check_boolean(arg)` first has Lua check that the argument is a boolean,
/// then answers its truth.
pub proof fn check_boolean_reads_arg(arg: i32, log: Seq<Exchange>, out: bool)
    requires
        check_boolean_conversation(arg, log, out),
    ensures
        log.len() == 2,
        log[0].call == Op::CheckType(arg, LUA_TBOOLEAN),
        log[1].call == Op::ToBoolean(arg),
        out <==> log[1].answer == Answer::Int(1),
{
}

/// Loading succeeds exactly when the loader returns 0; any other status is the
/// error returned.
pub proof fn load_answers_status(call: Op, log: Seq<Exchange>, out: Result<(), i32>, code: i32)
    requires
        load_conversation(call, log, out),
        log[0].answer == Answer::Int(code),
    ensures
        log.len() == 1,
        log[0].call == call,
        out is Ok <==> code == 0,
        code != 0 ==> out == Err::<(), i32>(code),
{
}

/// `LuaState::new` opens the libraries on what `luaL_newstate` returned, and
/// succeeds exactly when that is not null.
pub proof fn new_state_opens_libs(log: Seq<Exchange>, created: bool)
    requires
        new_state_conversation(log, created),
    ensures
        log.len() == 2,
        log[0].call == Op::NewState,
        log[1].call == Op::OpenLibs,
        created <==> log[0].answer == Answer::Pointer(true),
{
}

/// `get_type` names the type code that `lua_type` gave, by the lossy decoding
/// of what `lua_typename` answered for it.
pub proof fn type_of_names_type(index: i32, log: Seq<Exchange>, name: Seq<char>, t: i32, bytes: Seq<u8>)
    requires
        type_of_conversation(index, log, name),
        log[0].answer == Answer::Int(t),
        log[1].answer == Answer::Text(Some(bytes)),
    ensures
        log.len() == 2,
        log[0].call == Op::Type(index),
        log[1].call == Op::TypeName(t),
        name == utf8_lossy(bytes),
{
}

/// `lua_type_name(type_id)` asks `lua_typename` for that very code and answers
/// the lossy decoding of its answer.
pub proof fn type_name_names_code(type_id: i32, log: Seq<Exchange>, name: Seq<char>, bytes: Seq<u8>)
    requires
        type_name_conversation(type_id, log, name),
        log[1].answer == Answer::Text(Some(bytes)),
    ensures
        log[1].call == Op::TypeName(type_id),
        name == utf8_lossy(bytes),
{
}

/// A debug lookup finds its record exactly when every call it made returned
/// non-zero: `debug_getinfo_at` asks `lua_getinfo` only where `lua_getstack`
/// found the level.
pub proof fn lookup_found_when_nonzero(lookup: LookupV, log: Seq<Exchange>, found: bool)
    requires
        lookup_conversation(lookup, log, found),
    ensures
        1 <= log.len() <= 2,
        forall|k: int| 0 <= k < log.len() ==> #[trigger] log[k].answer is Int,
        found ==> forall|k: int| 0 <= k < log.len() ==> #[trigger] log[k].answer != Answer::Int(0),
        lookup matches LookupV::Info(what) ==> log.len() == 1 && log[0].call == Op::GetInfo(what) && (
        found <==> log[0].answer != Answer::Int(0)),
        lookup matches LookupV::Stack(level) ==> log.len() == 1 && log[0].call == Op::GetStack(level)
            && (found <==> log[0].answer != Answer::Int(0)),
        lookup matches LookupV::StackInfo(level, what) ==> {
            &&& log[0].call == Op::GetStack(level)
            &&& log[0].answer == Answer::Int(0) ==> log.len() == 1 && !found
            &&& log[0].answer != Answer::Int(0) ==> log.len() == 2 && log[1].call == Op::GetInfo(what)
                && (found <==> log[1].answer != Answer::Int(0))
        },
{
    let _ = log[0];
    if log.len() == 2 {
        let _ = log[1];
    }
}

/// Reporting an ignored error fetches the global `ErrorNoHaltWithStack`. Where
/// it is nil, the error value (read at -2) is written out and nothing is called;
/// otherwise it is called with one argument: in checked builds the error's text
/// after `[pcall_ignore] `, else the error value itself. The report panics
/// exactly in a checked build with a reporter and an error that is no string.
pub proof fn error_report_reaches_reporter(checked: bool, log: Seq<Exchange>, panicked: bool, stacks: Seq<Seq<int>>)
    requires
        error_report_conversation(checked, log, panicked),
        follows(log, stacks),
        stacks[0].len() >= 1,
    ensures
        log[0].call == Op::GetField(LUA_GLOBALSINDEX, "ErrorNoHaltWithStack".spec_bytes()),
        log[1].call == Op::Type(-1i32),
        panicked <==> (checked && log[1].answer != Answer::Int(LUA_TNIL) && log[2].answer
            == Answer::Text(None)),
        log[1].answer == Answer::Int(LUA_TNIL) ==> {
            &&& log.len() == 6
            &&& log[2].call == Op::ToLString(-2i32)
            &&& stacks[2][stacks[2].len() - 2] == stacks[0].last()
            &&& forall|o: Option<Seq<u8>>|
                log[2].answer == Answer::Text(o) ==> log[3].call == Op::ReportError(lossy_opt(o))
            &&& forall|k: int| 0 <= k < log.len() ==> !(#[trigger] log[k].call is Call)
        },
        checked && log[1].answer != Answer::Int(LUA_TNIL) ==> {
            &&& log[2].call == Op::ToLString(-2i32)
            &&& stacks[2][stacks[2].len() - 2] == stacks[0].last()
            &&& forall|b: Seq<u8>|
                log[2].answer == Answer::Text(Some(b)) ==> log[3].call == Op::PushString(
                    "[pcall_ignore] "@ + utf8_lossy(b),
                ) && log[4].call == Op::Call(1i32, 0i32) && stacks[4][stacks[4].len() - 2]
                    == stacks[1].last()
        },
        !checked && log[1].answer != Answer::Int(LUA_TNIL) ==> {
            &&& log[3].call == Op::Call(1i32, 0i32)
            &&& stacks[3].last() == stacks[0].last()
            &&& stacks[3][stacks[3].len() - 2] == stacks[1].last()
        },
{
    let (t, o) = choose|t: i32, o: Option<Seq<u8>>|
        log == report_exchanges(checked, t, o) && panicked
            == report_panics(checked, t, o);
    assert(log == report_exchanges(checked, t, o));
    let n = stacks[0].len() as int;
    let _ = (log[0], log[1], log[2]);
    take_take(stacks[1], n, n + 1);
    assert(stacks[1] =~= stacks[0].push(stacks[1].last()));
    assert(stacks[2] == stacks[1]);
    assert(position(-2i32, n + 1) == Some(n - 1));
    if t == LUA_TNIL {
        let _ = (log[3], log[4], log[5]);
    } else if checked {
        if let Some(b) = o {
            let _ = (log[3], log[4], log[5]);
            assert(stacks[4].take(n + 1)[n] == stacks[4][n]);
            assert(stacks[3][n] == stacks[2][n]);
        }
    } else {
        let _ = (log[3], log[4]);
    }
}

/// `pcall_ignore` calls `lua_pcall` with no message handler and answers whether
/// it returned success. A runtime error is reported; any other failure is, in
/// checked builds, written out with its status after
/// `[gmod-rs] pcall_ignore unknown error: `. Only a report can panic.
pub proof fn pcall_ignore_handles_status(
    checked: bool,
    nargs: i32,
    nresults: i32,
    log: Seq<Exchange>,
    out: Option<bool>,
    status: i32,
)
    requires
        pcall_ignore_conversation(checked, nargs, nresults, log, out),
        log[0].answer == Answer::Int(status),
    ensures
        log[0].call == Op::PCall(nargs, nresults, 0i32),
        out matches Some(ok) ==> (ok <==> status == LUA_OK),
        out is None ==> checked && status == LUA_ERRRUN,
        status == LUA_ERRRUN ==> log[1].call == Op::GetField(
            LUA_GLOBALSINDEX,
            "ErrorNoHaltWithStack".spec_bytes(),
        ),
        status == LUA_OK ==> log.len() == 1 && out == Some(true),
        status != LUA_OK && status != LUA_ERRRUN ==> out == Some(false) && if checked {
            log.len() == 2 && log[1].call == Op::ReportStatus(
                "[gmod-rs] pcall_ignore unknown error: "@,
                status,
            )
        } else {
            log.len() == 1
        },
{
    if status == LUA_ERRRUN {
        let r = log.skip(1);
        let (t, o) = choose|t: i32, o: Option<Seq<u8>>|
            r == report_exchanges(checked, t, o) && (out is None)
                == report_panics(checked, t, o);
        assert(r == report_exchanges(checked, t, o));
        assert(log[1] == r[0]);
    }
}

/// `coroutine_resume_pcall_ignore` answers the status of `lua_resume` when the
/// coroutine finished or yielded, and an error otherwise. A runtime error is
/// reported; any other failure is, in checked builds, written out with its
/// status after `[gmod-rs] coroutine_resume_pcall_ignore unknown error: `.
pub proof fn resume_pcall_ignore_handles_status(
    checked: bool,
    narg: i32,
    log: Seq<Exchange>,
    out: Option<Result<i32, ()>>,
    status: i32,
)
    requires
        resume_pcall_ignore_conversation(checked, narg, log, out),
        log[0].answer == Answer::Int(status),
    ensures
        log[0].call == Op::Resume(narg),
        status == LUA_OK || status == LUA_YIELD ==> log.len() == 1 && out == Some(
            Ok::<i32, ()>(status),
        ),
        out is None ==> checked && status == LUA_ERRRUN,
        status != LUA_OK && status != LUA_YIELD && out is Some ==> out == Some(Err::<i32, ()>(())),
        status == LUA_ERRRUN ==> log[1].call == Op::GetField(
            LUA_GLOBALSINDEX,
            "ErrorNoHaltWithStack".spec_bytes(),
        ),
        status != LUA_OK && status != LUA_YIELD && status != LUA_ERRRUN ==> if checked {
            log.len() == 2 && log[1].call == Op::ReportStatus(
                "[gmod-rs] coroutine_resume_pcall_ignore unknown error: "@,
                status,
            )
        } else {
            log.len() == 1
        },
{
    if status == LUA_ERRRUN {
        let r = log.skip(1);
        let (t, o) = choose|t: i32, o: Option<Seq<u8>>|
            r == report_exchanges(checked, t, o) && (out is None)
                == report_panics(checked, t, o);
        assert(r == report_exchanges(checked, t, o));
        assert(log[1] == r[0]);
    }
}

/// `coroutine_resume_call` returns only when the coroutine finished; otherwise
/// it raises: for a runtime error the error value's text (read at -2), or
/// "Unknown error" where it is no string; "Out of memory" for a memory error;
/// "Unknown internal Lua error" for any other status.
pub proof fn resume_call_messages(narg: i32, log: Seq<Exchange>, status: i32)
    requires
        resume_call_returns(narg, log) || resume_call_raises(narg, log),
        log[0].answer == Answer::Int(status),
    ensures
        log[0].call == Op::Resume(narg),
        resume_call_returns(narg, log) <==> status == LUA_OK,
        status == LUA_ERRRUN ==> {
            &&& log.len() == 3
            &&& log[1].call == Op::ToLString(-2i32)
            &&& forall|b: Seq<u8>|
                log[1].answer == Answer::Text(Some(b)) ==> log[2].call == Op::PushString(utf8_lossy(b))
            &&& log[1].answer == Answer::Text(None) ==> log[2].call == Op::PushString("Unknown error"@)
        },
        status == LUA_ERRMEM ==> log.len() == 2 && log[1].call == Op::PushString("Out of memory"@),
        status != LUA_OK && status != LUA_ERRRUN && status != LUA_ERRMEM ==> log.len() == 2
            && log[1].call == Op::PushString("Unknown internal Lua error"@),
{
    let _ = log[0];
}

/// `error(message)` pushes exactly the message before raising it.
pub proof fn raise_pushes_message(message: Seq<char>, log: Seq<Exchange>)
    requires
        raise_conversation(message, log),
    ensures
        log.len() == 1,
        log[0].call == Op::PushString(message),
{
}

/// Upvalue indices are pseudo-indices below the globals table's, one for each
/// upvalue number: they denote no slot of the stack.
pub proof fn upvalue_indices_are_pseudo(a: i32, b: i32, len: int)
    requires
        a >= 1,
        b >= 1,
        spec_upvalue_index(a) >= i32::MIN,
    ensures
        spec_upvalue_index(a) < LUA_GLOBALSINDEX,
        a != b ==> spec_upvalue_index(a) != spec_upvalue_index(b),
        position(spec_upvalue_index(a) as i32, len) is None,
{
}
} // verus!
