//! `LuaState`: the library's side of a gmod Lua state. Each method gives the
//! call it makes on the state, or starts the conversation it holds with it.
use vstd::prelude::*;
use crate::api::{ApiCall, Exchange, Op};
use crate::consts::{
    LUA_GLOBALSINDEX, LUA_REGISTRYINDEX, LUA_TBOOLEAN, LUA_TFUNCTION, LUA_TNIL, LUA_TNONE, LUA_TTABLE,
};
use crate::dump::{DumpStack, DumpVal};
use crate::errors::{PcallIgnore, Raise, ResumeCall, ResumePcallIgnore};
use crate::flag::{realm_key, GlobalFlag, Realm};
use crate::query::{
    read_op, CheckBoolean, Chunk, DebugLookup, Load, Lookup, LookupV, NewState, NoneOrNil,
    ReadString, TypeOf, TypeTest,
};
use crate::typename::TypeName;
use crate::userdata::{new_userdata_exchanges, NewUserdata, TestUserdata};

verus! {

/// The value of the C macro `lua_upvalueindex(idx)`.
pub open spec fn spec_upvalue_index(idx: i32) -> int {
    LUA_GLOBALSINDEX - idx
}

/// The library's side of a gmod Lua state. `checked` tells whether the build
/// runs debug-only checks (debug assertions), which change how an ignored runtime
/// error is reported.
#[derive(Debug, Clone, PartialEq)]
pub struct LuaState {
    checked: bool,
}

impl LuaState {
    pub closed spec fn checked(&self) -> bool {
        self.checked
    }

    /// A Lua state as seen by a build with (`checked`) or without debug checks.
    pub fn with_checks(checked: bool) -> (s: LuaState)
        ensures
            s.checked() == checked,
    {
        LuaState { checked }
    }

    /// `new`: creates a state and opens the standard libraries.
    pub fn new() -> (r: (NewState, ApiCall))
        ensures
            r.0.wf(),
            r.0.log() == Seq::<Exchange>::empty(),
            r.0.pending() == r.1@,
            r.1@ == Op::NewState,
    {
        NewState::start()
    }

    /// `is_client`: whether this is the clientside state (global `CLIENT`).
    pub fn is_client(&self) -> (r: (GlobalFlag, ApiCall))
        ensures
            r.0.wf(),
            r.0.key() == realm_key(Realm::Client),
            r.0.log() == Seq::<Exchange>::empty(),
            r.0.pending() == r.1@,
            r.1@ == Op::GetField(LUA_GLOBALSINDEX, realm_key(Realm::Client)),
    {
        GlobalFlag::start(Realm::Client)
    }

    /// `is_server`: whether this is the serverside state (global `SERVER`).
    pub fn is_server(&self) -> (r: (GlobalFlag, ApiCall))
        ensures
            r.0.wf(),
            r.0.key() == realm_key(Realm::Server),
            r.0.log() == Seq::<Exchange>::empty(),
            r.0.pending() == r.1@,
            r.1@ == Op::GetField(LUA_GLOBALSINDEX, realm_key(Realm::Server)),
    {
        GlobalFlag::start(Realm::Server)
    }

    /// `is_menu`: whether this is the menu state (global `MENU_DLL`).
    pub fn is_menu(&self) -> (r: (GlobalFlag, ApiCall))
        ensures
            r.0.wf(),
            r.0.key() == realm_key(Realm::Menu),
            r.0.log() == Seq::<Exchange>::empty(),
            r.0.pending() == r.1@,
            r.1@ == Op::GetField(LUA_GLOBALSINDEX, realm_key(Realm::Menu)),
    {
        GlobalFlag::start(Realm::Menu)
    }

    /// `get_string`: the value at `index` as a string, lossily decoded; `None`
    /// when it is not convertible (the value is converted in place if it is a number).
    pub fn get_string(&self, index: i32) -> (r: (ReadString, ApiCall))
        ensures
            r.0.wf(),
            r.0.index() == index,
            !r.0.required(),
            r.0.log() == Seq::<Exchange>::empty(),
            r.0.pending() == r.1@,
            r.1@ == read_op(index, false),
    {
        ReadString::start(index, false)
    }

    /// `check_string`: the argument `arg` as a string, lossily decoded (Lua
    /// raises an error when it is not a string).
    pub fn check_string(&self, arg: i32) -> (r: (ReadString, ApiCall))
        ensures
            r.0.wf(),
            r.0.index() == arg,
            r.0.required(),
            r.0.log() == Seq::<Exchange>::empty(),
            r.0.pending() == r.1@,
            r.1@ == read_op(arg, true),
    {
        ReadString::start(arg, true)
    }

    /// `get_type`: the name of the type of the value at `index`.
    pub fn get_type(&self, index: i32) -> (r: (TypeOf, ApiCall))
        ensures
            r.0.wf(),
            r.0.index() == index,
            r.0.log() == Seq::<Exchange>::empty(),
            r.0.pending() == r.1@,
            r.1@ == Op::Type(index),
    {
        TypeOf::start(index)
    }

    /// `is_nil`: whether the value at `index` is nil (see also `is_none_or_nil`).
    pub fn is_nil(&self, index: i32) -> (r: (TypeTest, ApiCall))
        ensures
            r.0.wf(),
            r.0.index() == index,
            r.0.expected() == LUA_TNIL,
            r.0.log() == Seq::<Exchange>::empty(),
            r.0.pending() == r.1@,
            r.1@ == Op::Type(index),
    {
        TypeTest::start(index, LUA_TNIL)
    }

    /// `is_none`: whether `index` is not a valid stack index.
    pub fn is_none(&self, index: i32) -> (r: (TypeTest, ApiCall))
        ensures
            r.0.wf(),
            r.0.index() == index,
            r.0.expected() == LUA_TNONE,
            r.0.log() == Seq::<Exchange>::empty(),
            r.0.pending() == r.1@,
            r.1@ == Op::Type(index),
    {
        TypeTest::start(index, LUA_TNONE)
    }

    /// `is_function`: whether the value at `index` is a function.
    pub fn is_function(&self, index: i32) -> (r: (TypeTest, ApiCall))
        ensures
            r.0.wf(),
            r.0.index() == index,
            r.0.expected() == LUA_TFUNCTION,
            r.0.log() == Seq::<Exchange>::empty(),
            r.0.pending() == r.1@,
            r.1@ == Op::Type(index),
    {
        TypeTest::start(index, LUA_TFUNCTION)
    }

    /// `is_table`: whether the value at `index` is a table.
    pub fn is_table(&self, index: i32) -> (r: (TypeTest, ApiCall))
        ensures
            r.0.wf(),
            r.0.index() == index,
            r.0.expected() == LUA_TTABLE,
            r.0.log() == Seq::<Exchange>::empty(),
            r.0.pending() == r.1@,
            r.1@ == Op::Type(index),
    {
        TypeTest::start(index, LUA_TTABLE)
    }

    /// `is_boolean`: whether the value at `index` is a boolean.
    pub fn is_boolean(&self, index: i32) -> (r: (TypeTest, ApiCall))
        ensures
            r.0.wf(),
            r.0.index() == index,
            r.0.expected() == LUA_TBOOLEAN,
            r.0.log() == Seq::<Exchange>::empty(),
            r.0.pending() == r.1@,
            r.1@ == Op::Type(index),
    {
        TypeTest::start(index, LUA_TBOOLEAN)
    }

    /// `is_none_or_nil`: whether the value at `index` is nil or the index is not valid.
    pub fn is_none_or_nil(&self, index: i32) -> (r: (NoneOrNil, ApiCall))
        ensures
            r.0.wf(),
            r.0.index() == index,
            r.0.log() == Seq::<Exchange>::empty(),
            r.0.pending() == r.1@,
            r.1@ == Op::Type(index),
    {
        NoneOrNil::start(index)
    }

    /// `pcall_ignore`: `pcall` that reports a runtime error through
    /// `ErrorNoHaltWithStack` and ignores it; answers whether the call succeeded.
    pub fn pcall_ignore(&self, nargs: i32, nresults: i32) -> (r: (PcallIgnore, ApiCall))
        ensures
            r.0.wf(),
            r.0.checked() == self.checked(),
            r.0.nargs() == nargs,
            r.0.nresults() == nresults,
            r.0.log() == Seq::<Exchange>::empty(),
            r.0.pending() == r.1@,
            r.1@ == Op::PCall(nargs, nresults, 0i32),
    {
        PcallIgnore::start(self.checked, nargs, nresults)
    }

    /// `load_string`: loads a source text as a chunk.
    pub fn load_string(&self, src: Vec<u8>) -> (r: (Load, ApiCall))
        ensures
            r.0.wf(),
            r.0.call() == Op::LoadString(src@),
            r.0.log() == Seq::<Exchange>::empty(),
            r.0.pending() == r.1@,
            r.1@ == Op::LoadString(src@),
    {
        Load::start(Chunk::Source(src))
    }

    /// `load_buffer`: loads a buffer as a chunk named `name`.
    pub fn load_buffer(&self, buff: Vec<u8>, name: Vec<u8>) -> (r: (Load, ApiCall))
        ensures
            r.0.wf(),
            r.0.call() == Op::LoadBuffer(buff@, name@),
            r.0.log() == Seq::<Exchange>::empty(),
            r.0.pending() == r.1@,
            r.1@ == Op::LoadBuffer(buff@, name@),
    {
        Load::start(Chunk::Buffer(buff, name))
    }

    /// `load_file`: loads the file at `path` as a chunk.
    pub fn load_file(&self, path: Vec<u8>) -> (r: (Load, ApiCall))
        ensures
            r.0.wf(),
            r.0.call() == Op::LoadFile(path@),
            r.0.log() == Seq::<Exchange>::empty(),
            r.0.pending() == r.1@,
            r.1@ == Op::LoadFile(path@),
    {
        Load::start(Chunk::File(path))
    }

    /// `pop`: pops one value.
    pub fn pop(&self) -> (c: ApiCall)
        ensures
            c@ == Op::SetTop(-2i32),
    {
        self.pop_n(1)
    }

    /// `pop_n`: pops `count` values, as `lua_settop(-count - 1)`.
    pub fn pop_n(&self, count: i32) -> (c: ApiCall)
        requires
            count > i32::MIN,
        ensures
            c@ == Op::SetTop((-count - 1) as i32),
    {
        ApiCall::SetTop(-count - 1)
    }

    /// `lua_type_name`: the name of the type `type_id`, with the stack put back
    /// as it was around `lua_typename`.
    pub fn lua_type_name(&self, type_id: i32) -> (r: (TypeName, ApiCall))
        ensures
            r.0.wf(),
            r.0.type_id() == type_id,
            r.0.log() == Seq::<Exchange>::empty(),
            r.0.pending() == r.1@,
            r.1@ == Op::GetTop,
    {
        TypeName::start(type_id)
    }

    /// `push_boolean`: pushes `boolean` as a C boolean.
    pub fn push_boolean(&self, boolean: bool) -> (c: ApiCall)
        ensures
            c@ == Op::PushBoolean(
                if boolean {
                    1i32
                } else {
                    0i32
                },
            ),
    {
        ApiCall::PushBoolean(
            if boolean {
                1
            } else {
                0
            },
        )
    }

    /// `upvalue_index`: the C macro `lua_upvalueindex`.
    pub fn upvalue_index(&self, idx: i32) -> (i: i32)
        requires
            spec_upvalue_index(idx) >= i32::MIN,
        ensures
            i == spec_upvalue_index(idx),
    {
        LUA_GLOBALSINDEX - idx
    }

    /// `push_closure_arg`: pushes the `n`th upvalue of the running closure.
    pub fn push_closure_arg(&self, n: i32) -> (c: ApiCall)
        requires
            spec_upvalue_index(n) >= i32::MIN,
        ensures
            c@ == Op::PushValue(spec_upvalue_index(n) as i32),
    {
        ApiCall::PushValue(self.upvalue_index(n))
    }

    /// `push_globals`: pushes the table of globals.
    pub fn push_globals(&self) -> (c: ApiCall)
        ensures
            c@ == Op::PushValue(LUA_GLOBALSINDEX),
    {
        ApiCall::PushValue(LUA_GLOBALSINDEX)
    }

    /// `push_registry`: pushes the registry.
    pub fn push_registry(&self) -> (c: ApiCall)
        ensures
            c@ == Op::PushValue(LUA_REGISTRYINDEX),
    {
        ApiCall::PushValue(LUA_REGISTRYINDEX)
    }

    /// `get_global`: pushes the global `name`.
    pub fn get_global(&self, name: Vec<u8>) -> (c: ApiCall)
        ensures
            c@ == Op::GetField(LUA_GLOBALSINDEX, name@),
    {
        ApiCall::GetField(LUA_GLOBALSINDEX, name)
    }

    /// `set_global`: pops a value into the global `name`.
    pub fn set_global(&self, name: Vec<u8>) -> (c: ApiCall)
        ensures
            c@ == Op::SetField(LUA_GLOBALSINDEX, name@),
    {
        ApiCall::SetField(LUA_GLOBALSINDEX, name)
    }

    /// `from_reference`: pushes the registry entry `reference`.
    pub fn from_reference(&self, reference: i32) -> (c: ApiCall)
        ensures
            c@ == Op::RawGetI(LUA_REGISTRYINDEX, reference),
    {
        ApiCall::RawGetI(LUA_REGISTRYINDEX, reference)
    }

    /// `new_table`: `create_table(0, 0)`.
    pub fn new_table(&self) -> (c: ApiCall)
        ensures
            c@ == Op::CreateTable(0i32, 0i32),
    {
        ApiCall::CreateTable(0, 0)
    }

    /// `check_table`: raises an argument error unless `arg` is a table.
    pub fn check_table(&self, arg: i32) -> (c: ApiCall)
        ensures
            c@ == Op::CheckType(arg, LUA_TTABLE),
    {
        ApiCall::CheckType(arg, LUA_TTABLE)
    }

    /// `check_function`: raises an argument error unless `arg` is a function.
    pub fn check_function(&self, arg: i32) -> (c: ApiCall)
        ensures
            c@ == Op::CheckType(arg, LUA_TFUNCTION),
    {
        ApiCall::CheckType(arg, LUA_TFUNCTION)
    }

    /// `test_userdata`: whether the value at `index` is a userdata whose
    /// metatable is the registry's `name` entry.
    pub fn test_userdata(&self, index: i32, name: Vec<u8>) -> (r: (TestUserdata, ApiCall))
        ensures
            r.0.wf(),
            r.0.index() == index,
            r.0.name() == name@,
            r.0.log() == Seq::<Exchange>::empty(),
            r.0.pending() == r.1@,
            r.1@ == Op::ToUserdata(index),
    {
        TestUserdata::start(index, name)
    }

    /// `check_boolean`: the boolean argument `arg` (Lua raises an error if it
    /// is not a boolean).
    pub fn check_boolean(&self, arg: i32) -> (r: (CheckBoolean, ApiCall))
        ensures
            r.0.wf(),
            r.0.arg() == arg,
            r.0.log() == Seq::<Exchange>::empty(),
            r.0.pending() == r.1@,
            r.1@ == Op::CheckType(arg, LUA_TBOOLEAN),
    {
        CheckBoolean::start(arg)
    }

    /// `coroutine_resume_call`: resumes the coroutine and raises a Lua error
    /// unless it finished.
    pub fn coroutine_resume_call(&self, narg: i32) -> (r: (ResumeCall, ApiCall))
        ensures
            r.0.wf(),
            r.0.narg() == narg,
            r.0.log() == Seq::<Exchange>::empty(),
            r.0.pending() == r.1@,
            r.1@ == Op::Resume(narg),
    {
        ResumeCall::start(narg)
    }

    /// `coroutine_resume_pcall_ignore`: resumes the coroutine, reporting and
    /// ignoring a runtime error.
    pub fn coroutine_resume_pcall_ignore(&self, narg: i32) -> (r: (ResumePcallIgnore, ApiCall))
        ensures
            r.0.wf(),
            r.0.checked() == self.checked(),
            r.0.narg() == narg,
            r.0.log() == Seq::<Exchange>::empty(),
            r.0.pending() == r.1@,
            r.1@ == Op::Resume(narg),
    {
        ResumePcallIgnore::start(self.checked, narg)
    }

    /// `new_userdata`: allocates a userdata for a type of `size` bytes, which
    /// needs dropping or not, with the metatable at `metatable` or none.
    pub fn new_userdata(&self, needs_drop: bool, metatable: Option<i32>, size: usize) -> (r: (
        NewUserdata,
        ApiCall,
    ))
        ensures
            r.0.wf(),
            r.0.needs_drop() == needs_drop,
            r.0.metatable() == metatable,
            r.0.size() == size,
            r.0.log() == Seq::<Exchange>::empty(),
            r.0.pending() == r.1@,
            r.1@ == new_userdata_exchanges(needs_drop, metatable, size, 0, 0, 0)[0].call,
    {
        NewUserdata::start(needs_drop, metatable, size)
    }

    /// `error`: raises `msg` as a Lua error.
    pub fn error(&self, msg: String) -> (r: (Raise, ApiCall))
        ensures
            r.0.wf(),
            r.0.message() == msg@,
            r.0.log() == Seq::<Exchange>::empty(),
            r.0.pending() == r.1@,
            r.1@ == Op::PushString(msg@),
    {
        Raise::start(msg)
    }

    /// `debug_getinfo_from_ar`: fills the caller's record with `lua_getinfo(what)`.
    pub fn debug_getinfo_from_ar(&self, what: Vec<u8>) -> (r: (DebugLookup, ApiCall))
        ensures
            r.0.wf(),
            r.0.lookup() == LookupV::Info(what@),
            r.0.log() == Seq::<Exchange>::empty(),
            r.0.pending() == r.1@,
            r.1@ == Op::GetInfo(what@),
    {
        DebugLookup::start(Lookup::Info(what))
    }

    /// `debug_getinfo_from_stack`: `lua_getinfo(what)` on a fresh record; `what`
    /// should start with `>` (the function is popped from the stack).
    pub fn debug_getinfo_from_stack(&self, what: Vec<u8>) -> (r: (DebugLookup, ApiCall))
        ensures
            r.0.wf(),
            r.0.lookup() == LookupV::Info(what@),
            r.0.log() == Seq::<Exchange>::empty(),
            r.0.pending() == r.1@,
            r.1@ == Op::GetInfo(what@),
    {
        DebugLookup::start(Lookup::Info(what))
    }

    /// `get_stack_at`: the activation record of the function at `level`.
    pub fn get_stack_at(&self, level: i32) -> (r: (DebugLookup, ApiCall))
        ensures
            r.0.wf(),
            r.0.lookup() == LookupV::Stack(level),
            r.0.log() == Seq::<Exchange>::empty(),
            r.0.pending() == r.1@,
            r.1@ == Op::GetStack(level),
    {
        DebugLookup::start(Lookup::Stack(level))
    }

    /// `debug_getinfo_at`: the record at `level`, filled with `lua_getinfo(what)`.
    pub fn debug_getinfo_at(&self, level: i32, what: Vec<u8>) -> (r: (DebugLookup, ApiCall))
        ensures
            r.0.wf(),
            r.0.lookup() == LookupV::StackInfo(level, what@),
            r.0.log() == Seq::<Exchange>::empty(),
            r.0.pending() == r.1@,
            r.1@ == Op::GetStack(level),
    {
        DebugLookup::start(Lookup::StackInfo(level, what))
    }

    /// `dump_stack`: describes every value on the stack.
    pub fn dump_stack(&self) -> (r: (DumpStack, ApiCall))
        ensures
            r.0.wf(),
            r.0.log() == Seq::<Exchange>::empty(),
            r.0.pending() == r.1@,
            r.1@ == Op::GetTop,
    {
        DumpStack::start()
    }

    /// `dump_val`: renders the value at `index`.
    pub fn dump_val(&self, index: i32) -> (r: (DumpVal, ApiCall))
        ensures
            r.0.wf(),
            r.0.index() == index,
            r.0.log() == Seq::<Exchange>::empty(),
            r.0.pending() == r.1@,
            r.1@ == Op::Type(index),
    {
        DumpVal::start(index)
    }
}

} // verus!
