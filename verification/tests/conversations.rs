// A small in-memory Lua stack that answers the library's calls, and a driver
// that runs a conversation against it. Each test file is its own crate, so the
// tests that use this stand-in live in this file too.
use std::collections::HashMap;

use gmod::api::{ApiCall, Failure, Reply, Step};
use gmod::consts::{
    LUA_GLOBALSINDEX, LUA_REGISTRYINDEX, LUA_TBOOLEAN, LUA_TFUNCTION, LUA_TNIL, LUA_TNONE,
    LUA_TNUMBER, LUA_TSTRING, LUA_TTABLE, LUA_TUSERDATA,
};

#[derive(Clone, Debug, PartialEq)]
enum Val {
    Nil,
    Bool(bool),
    Num(f64),
    Str(Vec<u8>),
    Table(usize),
    Func(usize),
    Userdata(usize),
}

struct Mock {
    stack: Vec<Val>,
    tables: Vec<HashMap<Vec<u8>, Val>>,
    metatables: HashMap<usize, usize>,
    userdata_count: usize,
    globals: usize,
    registry: usize,
    statuses: Vec<i32>,
    typename_extra: usize,
    calls: Vec<ApiCall>,
    called: Vec<Vec<Val>>,
    reports: Vec<Option<String>>,
    status_lines: Vec<String>,
    raised: Option<Val>,
    new_state_null: bool,
}

impl Mock {
    fn new() -> Mock {
        Mock {
            stack: Vec::new(),
            tables: vec![HashMap::new(), HashMap::new()],
            metatables: HashMap::new(),
            userdata_count: 0,
            globals: 0,
            registry: 1,
            statuses: Vec::new(),
            typename_extra: 0,
            calls: Vec::new(),
            called: Vec::new(),
            reports: Vec::new(),
            status_lines: Vec::new(),
            raised: None,
            new_state_null: false,
        }
    }

    fn push(&mut self, v: Val) {
        self.stack.push(v);
    }

    fn new_table(&mut self) -> Val {
        self.tables.push(HashMap::new());
        Val::Table(self.tables.len() - 1)
    }

    fn set_global(&mut self, name: &str, v: Val) {
        let g = self.globals;
        self.tables[g].insert(name.as_bytes().to_vec(), v);
    }

    fn abs(&self, index: i32) -> Option<usize> {
        if index > 0 {
            let i = index as usize;
            if i <= self.stack.len() { Some(i - 1) } else { None }
        } else if index < 0 && index > LUA_REGISTRYINDEX {
            let back = (-index) as usize;
            if back <= self.stack.len() { Some(self.stack.len() - back) } else { None }
        } else {
            None
        }
    }

    fn get(&self, index: i32) -> Val {
        if index == LUA_GLOBALSINDEX {
            return Val::Table(self.globals);
        }
        if index == LUA_REGISTRYINDEX {
            return Val::Table(self.registry);
        }
        match self.abs(index) {
            Some(i) => self.stack[i].clone(),
            None => Val::Nil,
        }
    }

    fn type_of(&self, index: i32) -> i32 {
        if index != LUA_GLOBALSINDEX && index != LUA_REGISTRYINDEX && self.abs(index).is_none() {
            return LUA_TNONE;
        }
        match self.get(index) {
            Val::Nil => LUA_TNIL,
            Val::Bool(_) => LUA_TBOOLEAN,
            Val::Num(_) => LUA_TNUMBER,
            Val::Str(_) => LUA_TSTRING,
            Val::Table(_) => LUA_TTABLE,
            Val::Func(_) => LUA_TFUNCTION,
            Val::Userdata(_) => LUA_TUSERDATA,
        }
    }

    fn field(&self, table: &Val, key: &[u8]) -> Val {
        match table {
            Val::Table(t) => self.tables[*t].get(key).cloned().unwrap_or(Val::Nil),
            _ => Val::Nil,
        }
    }

    fn next_status(&mut self) -> i32 {
        if self.statuses.is_empty() { 0 } else { self.statuses.remove(0) }
    }

    fn set_top(&mut self, index: i32) {
        let n = if index >= 0 { index as usize } else { (self.stack.len() as i32 + index + 1) as usize };
        self.stack.resize(n, Val::Nil);
    }

    fn perform(&mut self, call: &ApiCall) -> Reply {
        self.calls.push(call.clone());
        match call {
            ApiCall::NewState => Reply::Pointer(!self.new_state_null),
            ApiCall::OpenLibs => Reply::Nothing,
            ApiCall::GetTop => Reply::Int(self.stack.len() as i32),
            ApiCall::SetTop(i) => {
                self.set_top(*i);
                Reply::Nothing
            },
            ApiCall::Remove(i) => {
                let at = self.abs(*i).unwrap();
                self.stack.remove(at);
                Reply::Nothing
            },
            ApiCall::PushValue(i) => {
                let v = self.get(*i);
                self.push(v);
                Reply::Nothing
            },
            ApiCall::PushString(s) => {
                self.push(Val::Str(s.as_bytes().to_vec()));
                Reply::Nothing
            },
            ApiCall::PushBoolean(b) => {
                self.push(Val::Bool(*b != 0));
                Reply::Nothing
            },
            ApiCall::RawGetI(_, _) => {
                self.push(Val::Nil);
                Reply::Nothing
            },
            ApiCall::PushFinalizer => {
                self.push(Val::Func(99));
                Reply::Nothing
            },
            ApiCall::CreateTable(_, _) => {
                let t = self.new_table();
                self.push(t);
                Reply::Nothing
            },
            ApiCall::GetField(i, k) => {
                let t = self.get(*i);
                let v = self.field(&t, k);
                self.push(v);
                Reply::Nothing
            },
            ApiCall::SetField(i, k) => {
                let t = self.get(*i);
                let v = self.stack.pop().unwrap();
                if let Val::Table(id) = t {
                    self.tables[id].insert(k.clone(), v);
                }
                Reply::Nothing
            },
            ApiCall::Type(i) => Reply::Int(self.type_of(*i)),
            ApiCall::TypeName(t) => {
                for _ in 0..self.typename_extra {
                    self.push(Val::Nil);
                }
                let name = match *t {
                    LUA_TNIL => "nil",
                    LUA_TBOOLEAN => "boolean",
                    LUA_TNUMBER => "number",
                    LUA_TSTRING => "string",
                    LUA_TTABLE => "table",
                    LUA_TFUNCTION => "function",
                    LUA_TUSERDATA => "userdata",
                    _ => "no value",
                };
                Reply::Text(Some(name.as_bytes().to_vec()))
            },
            ApiCall::ToBoolean(i) => Reply::Int(match self.get(*i) {
                Val::Nil | Val::Bool(false) => 0,
                _ => 1,
            }),
            ApiCall::ToLString(i) | ApiCall::CheckLString(i) => match self.get(*i) {
                Val::Str(b) => Reply::Text(Some(b)),
                Val::Num(n) => {
                    let b = format!("{}", n).into_bytes();
                    let at = self.abs(*i).unwrap();
                    self.stack[at] = Val::Str(b.clone());
                    Reply::Text(Some(b))
                },
                _ => Reply::Text(None),
            },
            ApiCall::ToNumber(i) => Reply::Number(match self.get(*i) {
                Val::Num(n) => n.to_bits(),
                _ => 0f64.to_bits(),
            }),
            ApiCall::ToUserdata(i) => Reply::Pointer(matches!(self.get(*i), Val::Userdata(_))),
            ApiCall::GetMetatable(i) => match self.get(*i) {
                Val::Userdata(u) => match self.metatables.get(&u) {
                    Some(t) => {
                        self.push(Val::Table(*t));
                        Reply::Int(1)
                    },
                    None => Reply::Int(0),
                },
                _ => Reply::Int(0),
            },
            ApiCall::SetMetatable(i) => {
                let target = self.get(*i);
                let mt = self.stack.pop().unwrap();
                if let (Val::Userdata(u), Val::Table(t)) = (target, mt) {
                    self.metatables.insert(u, t);
                }
                Reply::Int(1)
            },
            ApiCall::RawEqual(a, b) => Reply::Int(if self.get(*a) == self.get(*b) { 1 } else { 0 }),
            ApiCall::CheckType(_, _) => Reply::Nothing,
            ApiCall::Call(nargs, _) => {
                let n = *nargs as usize;
                let args = self.stack.split_off(self.stack.len() - n);
                self.stack.pop();
                self.called.push(args);
                Reply::Nothing
            },
            ApiCall::PCall(nargs, nresults, _) => {
                let status = self.next_status();
                let n = *nargs as usize;
                self.stack.truncate(self.stack.len() - n - 1);
                if status == 0 {
                    for _ in 0..*nresults {
                        self.push(Val::Nil);
                    }
                } else {
                    self.push(Val::Str(b"boom".to_vec()));
                }
                Reply::Int(status)
            },
            ApiCall::Resume(_) => Reply::Int(self.next_status()),
            ApiCall::LoadString(_) | ApiCall::LoadBuffer(_, _) | ApiCall::LoadFile(_) => {
                let status = self.next_status();
                self.push(Val::Func(1));
                Reply::Int(status)
            },
            ApiCall::NewUserdata(_) => {
                self.userdata_count += 1;
                self.push(Val::Userdata(self.userdata_count));
                Reply::Nothing
            },
            ApiCall::Error => {
                self.raised = self.stack.pop();
                Reply::Nothing
            },
            ApiCall::GetStack(level) => Reply::Int(if *level < 2 { 1 } else { 0 }),
            ApiCall::GetInfo(_) => Reply::Int(self.next_status()),
            ApiCall::ReportStatus(text, status) => {
                self.status_lines.push(format!("{}{}", text, status));
                Reply::Nothing
            },
            ApiCall::ReportError(m) => {
                self.reports.push(m.clone());
                Reply::Nothing
            },
        }
    }
}

#[derive(Debug, PartialEq)]
enum Ended<T> {
    Done(T),
    Panic(Failure),
    Fault,
    Raised,
}

fn drive<S, T>(lua: &mut Mock, start: (S, ApiCall), resume: fn(&mut S, Reply) -> Step<T>) -> Ended<T> {
    let (mut script, mut call) = start;
    loop {
        let is_error = call == ApiCall::Error;
        let reply = lua.perform(&call);
        if is_error {
            return Ended::Raised;
        }
        match resume(&mut script, reply) {
            Step::Call(c) => call = c,
            Step::Done(t) => return Ended::Done(t),
            Step::Panic(f) => return Ended::Panic(f),
            Step::Fault => return Ended::Fault,
        }
    }
}

use gmod::api::lua_boolean;
use gmod::api::metatable_was_present;
use gmod::dump::{DumpStack, DumpVal, Dumped, Shown, StackDump, StackEntry};
use gmod::errors::{PcallIgnore, Raise, ResumeCall, ResumePcallIgnore};
use gmod::flag::GlobalFlag;
use gmod::query::{CheckBoolean, DebugLookup, Load, NewState, NoneOrNil, ReadString, TypeOf, TypeTest};
use gmod::state::LuaState;
use gmod::typename::TypeName;
use gmod::userdata::{NewUserdata, TestUserdata};

fn unchecked() -> LuaState {
    LuaState::with_checks(false)
}

fn checked() -> LuaState {
    LuaState::with_checks(true)
}

#[test]
fn new_state_created_or_null() {
    let mut lua = Mock::new();
    assert_eq!(drive(&mut lua, LuaState::new(), NewState::resume), Ended::Done(true));
    assert_eq!(lua.calls, vec![ApiCall::NewState, ApiCall::OpenLibs]);
    let mut lua = Mock::new();
    lua.new_state_null = true;
    assert_eq!(drive(&mut lua, LuaState::new(), NewState::resume), Ended::Done(false));
    assert_eq!(lua.calls, vec![ApiCall::NewState, ApiCall::OpenLibs]);
}

#[test]
fn realm_flags_read_globals_and_keep_stack() {
    let mut lua = Mock::new();
    lua.push(Val::Num(7.0));
    lua.set_global("SERVER", Val::Bool(true));
    let s = unchecked();
    assert_eq!(drive(&mut lua, s.is_server(), GlobalFlag::resume), Ended::Done(true));
    assert_eq!(drive(&mut lua, s.is_client(), GlobalFlag::resume), Ended::Done(false));
    assert_eq!(drive(&mut lua, s.is_menu(), GlobalFlag::resume), Ended::Done(false));
    assert_eq!(lua.stack, vec![Val::Num(7.0)]);
    assert_eq!(lua.calls[0], ApiCall::GetField(LUA_GLOBALSINDEX, b"SERVER".to_vec()));
    assert_eq!(lua.calls[1], ApiCall::ToBoolean(-1));
    assert_eq!(lua.calls[2], ApiCall::SetTop(-2));
    assert_eq!(lua.calls[3], ApiCall::GetField(LUA_GLOBALSINDEX, b"CLIENT".to_vec()));
    assert_eq!(lua.calls[6], ApiCall::GetField(LUA_GLOBALSINDEX, b"MENU_DLL".to_vec()));
}

#[test]
fn get_string_reads_and_converts() {
    let mut lua = Mock::new();
    lua.push(Val::Str(b"hello".to_vec()));
    lua.push(Val::Num(3.0));
    lua.push(Val::Nil);
    let s = unchecked();
    assert_eq!(drive(&mut lua, s.get_string(1), ReadString::resume), Ended::Done(Some("hello".to_string())));
    assert_eq!(drive(&mut lua, s.get_string(2), ReadString::resume), Ended::Done(Some("3".to_string())));
    assert_eq!(lua.stack[1], Val::Str(b"3".to_vec()));
    assert_eq!(drive(&mut lua, s.get_string(-1), ReadString::resume), Ended::Done(None));
}

#[test]
fn get_string_replaces_invalid_utf8() {
    let mut lua = Mock::new();
    lua.push(Val::Str(vec![b'a', 0xff, b'b']));
    let s = unchecked();
    assert_eq!(
        drive(&mut lua, s.get_string(1), ReadString::resume),
        Ended::Done(Some("a\u{FFFD}b".to_string()))
    );
}

#[test]
fn check_string_uses_checklstring() {
    let mut lua = Mock::new();
    lua.push(Val::Str(b"x".to_vec()));
    let s = unchecked();
    assert_eq!(drive(&mut lua, s.check_string(1), ReadString::resume), Ended::Done(Some("x".to_string())));
    assert_eq!(lua.calls, vec![ApiCall::CheckLString(1)]);
    let (mut script, _) = s.check_string(1);
    assert_eq!(script.resume(Reply::Text(None)), Step::Fault);
}

#[test]
fn get_type_names_the_type() {
    let mut lua = Mock::new();
    lua.push(Val::Num(1.0));
    let s = unchecked();
    assert_eq!(drive(&mut lua, s.get_type(1), TypeOf::resume), Ended::Done("number".to_string()));
    assert_eq!(lua.calls, vec![ApiCall::Type(1), ApiCall::TypeName(LUA_TNUMBER)]);
}

#[test]
fn none_or_nil_short_circuits() {
    let mut lua = Mock::new();
    lua.push(Val::Nil);
    lua.push(Val::Num(1.0));
    let s = unchecked();
    assert_eq!(drive(&mut lua, s.is_none_or_nil(1), NoneOrNil::resume), Ended::Done(true));
    assert_eq!(lua.calls.len(), 1);
    assert_eq!(drive(&mut lua, s.is_none_or_nil(5), NoneOrNil::resume), Ended::Done(true));
    assert_eq!(lua.calls.len(), 3);
    assert_eq!(drive(&mut lua, s.is_none_or_nil(2), NoneOrNil::resume), Ended::Done(false));
    assert_eq!(lua.stack.len(), 2);
}

#[test]
fn pcall_ignore_success() {
    let mut lua = Mock::new();
    lua.push(Val::Func(1));
    lua.push(Val::Num(1.0));
    let s = unchecked();
    assert_eq!(drive(&mut lua, s.pcall_ignore(1, 2), PcallIgnore::resume), Ended::Done(true));
    assert_eq!(lua.calls, vec![ApiCall::PCall(1, 2, 0)]);
    assert_eq!(lua.stack.len(), 2);
}

#[test]
fn pcall_ignore_runtime_error_reported_and_popped() {
    let mut lua = Mock::new();
    lua.push(Val::Num(5.0));
    lua.push(Val::Func(1));
    lua.set_global("ErrorNoHaltWithStack", Val::Func(2));
    lua.statuses = vec![2];
    let s = unchecked();
    assert_eq!(drive(&mut lua, s.pcall_ignore(0, 0), PcallIgnore::resume), Ended::Done(false));
    assert_eq!(lua.called, vec![vec![Val::Str(b"boom".to_vec())]]);
    assert_eq!(lua.stack, vec![Val::Num(5.0)]);
    assert_eq!(lua.calls[3], ApiCall::PushValue(-2));
}

#[test]
fn pcall_ignore_checked_tags_the_message() {
    let mut lua = Mock::new();
    lua.push(Val::Func(1));
    lua.set_global("ErrorNoHaltWithStack", Val::Func(2));
    lua.statuses = vec![2];
    let s = checked();
    assert_eq!(drive(&mut lua, s.pcall_ignore(0, 0), PcallIgnore::resume), Ended::Done(false));
    assert_eq!(lua.called, vec![vec![Val::Str(b"[pcall_ignore] boom".to_vec())]]);
    assert!(lua.stack.is_empty());
}

#[test]
fn pcall_ignore_without_reporter_writes_error() {
    let mut lua = Mock::new();
    lua.push(Val::Func(1));
    lua.statuses = vec![2];
    let s = unchecked();
    assert_eq!(drive(&mut lua, s.pcall_ignore(0, 0), PcallIgnore::resume), Ended::Done(false));
    assert_eq!(lua.reports, vec![Some("boom".to_string())]);
    assert!(lua.stack.is_empty());
}

#[test]
fn pcall_ignore_checked_panics_on_unreadable_error() {
    let mut s = checked().pcall_ignore(0, 0).0;
    assert!(matches!(s.resume(Reply::Int(2)), Step::Call(_)));
    assert!(matches!(s.resume(Reply::Nothing), Step::Call(ApiCall::Type(-1))));
    assert_eq!(s.resume(Reply::Int(LUA_TFUNCTION)), Step::Call(ApiCall::ToLString(-2)));
    assert_eq!(s.resume(Reply::Text(None)), Step::Panic(Failure::ErrorNotString));
}

#[test]
fn pcall_ignore_other_errors_are_false_and_left() {
    let mut lua = Mock::new();
    lua.push(Val::Func(1));
    lua.statuses = vec![4];
    let s = unchecked();
    assert_eq!(drive(&mut lua, s.pcall_ignore(0, 0), PcallIgnore::resume), Ended::Done(false));
    assert_eq!(lua.stack, vec![Val::Str(b"boom".to_vec())]);
}

#[test]
fn load_variants() {
    let mut lua = Mock::new();
    let s = unchecked();
    assert_eq!(drive(&mut lua, s.load_string(b"return 1".to_vec()), Load::resume), Ended::Done(Ok(())));
    lua.statuses = vec![3];
    assert_eq!(drive(&mut lua, s.load_buffer(b"x".to_vec(), b"chunk".to_vec()), Load::resume), Ended::Done(Err(3)));
    lua.statuses = vec![6];
    assert_eq!(drive(&mut lua, s.load_file(b"a.lua".to_vec()), Load::resume), Ended::Done(Err(6)));
    assert_eq!(lua.calls[1], ApiCall::LoadBuffer(b"x".to_vec(), b"chunk".to_vec()));
    assert_eq!(lua.calls[2], ApiCall::LoadFile(b"a.lua".to_vec()));
}

#[test]
fn pops_and_encodings() {
    let s = unchecked();
    assert_eq!(s.pop(), ApiCall::SetTop(-2));
    assert_eq!(s.pop_n(3), ApiCall::SetTop(-4));
    assert_eq!(s.pop_n(0), ApiCall::SetTop(-1));
    assert_eq!(s.push_boolean(true), ApiCall::PushBoolean(1));
    assert_eq!(s.push_boolean(false), ApiCall::PushBoolean(0));
    assert_eq!(s.upvalue_index(1), -10003);
    assert_eq!(s.push_closure_arg(2), ApiCall::PushValue(-10004));
    assert_eq!(s.push_globals(), ApiCall::PushValue(LUA_GLOBALSINDEX));
    assert_eq!(s.push_registry(), ApiCall::PushValue(LUA_REGISTRYINDEX));
    assert_eq!(s.get_global(b"x".to_vec()), ApiCall::GetField(LUA_GLOBALSINDEX, b"x".to_vec()));
    assert_eq!(s.set_global(b"x".to_vec()), ApiCall::SetField(LUA_GLOBALSINDEX, b"x".to_vec()));
    assert_eq!(s.from_reference(4), ApiCall::RawGetI(LUA_REGISTRYINDEX, 4));
    assert_eq!(s.new_table(), ApiCall::CreateTable(0, 0));
    assert_eq!(s.check_table(1), ApiCall::CheckType(1, LUA_TTABLE));
    assert_eq!(s.check_function(2), ApiCall::CheckType(2, LUA_TFUNCTION));
    assert!(lua_boolean(1));
    assert!(!lua_boolean(2));
    assert!(metatable_was_present(0));
    assert!(!metatable_was_present(1));
}

#[test]
fn pop_n_pops_count_values() {
    let mut lua = Mock::new();
    for i in 0..5 {
        lua.push(Val::Num(i as f64));
    }
    let c = unchecked().pop_n(3);
    lua.perform(&c);
    assert_eq!(lua.stack.len(), 2);
    let c = unchecked().pop();
    lua.perform(&c);
    assert_eq!(lua.stack.len(), 1);
}

#[test]
fn pop_undoes_push() {
    let mut lua = Mock::new();
    lua.push(Val::Nil);
    let s = unchecked();
    for c in [s.push_boolean(true), s.push_globals(), s.new_table(), s.get_global(b"a".to_vec())] {
        lua.perform(&c);
        lua.perform(&s.pop());
        assert_eq!(lua.stack.len(), 1);
    }
}

#[test]
fn lua_type_name_restores_the_stack() {
    let mut lua = Mock::new();
    lua.push(Val::Num(1.0));
    lua.typename_extra = 2;
    let s = unchecked();
    assert_eq!(drive(&mut lua, s.lua_type_name(LUA_TTABLE), TypeName::resume), Ended::Done("table".to_string()));
    assert_eq!(lua.stack, vec![Val::Num(1.0)]);
    assert_eq!(lua.calls[3], ApiCall::SetTop(-3));
    lua.typename_extra = 0;
    assert_eq!(drive(&mut lua, s.lua_type_name(LUA_TNIL), TypeName::resume), Ended::Done("nil".to_string()));
    assert_eq!(lua.calls[7], ApiCall::SetTop(-1));
    assert_eq!(lua.stack.len(), 1);
}

#[test]
fn lua_type_name_faults_on_negative_top() {
    let (mut t, _) = unchecked().lua_type_name(1);
    assert_eq!(t.resume(Reply::Int(-1)), Step::Fault);
}

fn userdata_with_metatable(lua: &mut Mock, name: &str) -> Val {
    let t = lua.new_table();
    let r = lua.registry;
    lua.tables[r].insert(name.as_bytes().to_vec(), t.clone());
    lua.userdata_count += 1;
    let u = lua.userdata_count;
    if let Val::Table(id) = t {
        lua.metatables.insert(u, id);
    }
    Val::Userdata(u)
}

#[test]
fn test_userdata_matches_registry_metatable() {
    let mut lua = Mock::new();
    let ud = userdata_with_metatable(&mut lua, "Thing");
    lua.push(ud);
    lua.push(Val::Num(1.0));
    let s = unchecked();
    assert_eq!(drive(&mut lua, s.test_userdata(1, b"Thing".to_vec()), TestUserdata::resume), Ended::Done(true));
    assert_eq!(lua.stack.len(), 2);
    assert_eq!(drive(&mut lua, s.test_userdata(1, b"Other".to_vec()), TestUserdata::resume), Ended::Done(false));
    assert_eq!(lua.stack.len(), 2);
    assert_eq!(drive(&mut lua, s.test_userdata(2, b"Thing".to_vec()), TestUserdata::resume), Ended::Done(false));
    lua.userdata_count += 1;
    let bare = Val::Userdata(lua.userdata_count);
    lua.push(bare);
    assert_eq!(drive(&mut lua, s.test_userdata(3, b"Thing".to_vec()), TestUserdata::resume), Ended::Done(false));
    assert_eq!(lua.stack.len(), 3);
}

#[test]
fn check_boolean_reads_argument() {
    let mut lua = Mock::new();
    lua.push(Val::Bool(true));
    let s = unchecked();
    assert_eq!(drive(&mut lua, s.check_boolean(1), CheckBoolean::resume), Ended::Done(true));
    assert_eq!(lua.calls, vec![ApiCall::CheckType(1, LUA_TBOOLEAN), ApiCall::ToBoolean(1)]);
    assert_eq!(lua.stack.len(), 1);
}

#[test]
fn resume_call_outcomes() {
    let s = unchecked();
    let mut lua = Mock::new();
    assert_eq!(drive(&mut lua, s.coroutine_resume_call(0), ResumeCall::resume), Ended::Done(()));

    let mut lua = Mock::new();
    lua.push(Val::Str(b"oops".to_vec()));
    lua.push(Val::Nil);
    lua.statuses = vec![2];
    assert_eq!(drive(&mut lua, s.coroutine_resume_call(0), ResumeCall::resume), Ended::Raised);
    assert_eq!(lua.raised, Some(Val::Str(b"oops".to_vec())));

    let mut lua = Mock::new();
    lua.push(Val::Nil);
    lua.push(Val::Nil);
    lua.statuses = vec![2];
    assert_eq!(drive(&mut lua, s.coroutine_resume_call(0), ResumeCall::resume), Ended::Raised);
    assert_eq!(lua.raised, Some(Val::Str(b"Unknown error".to_vec())));

    let mut lua = Mock::new();
    lua.statuses = vec![4];
    assert_eq!(drive(&mut lua, s.coroutine_resume_call(0), ResumeCall::resume), Ended::Raised);
    assert_eq!(lua.raised, Some(Val::Str(b"Out of memory".to_vec())));

    let mut lua = Mock::new();
    lua.statuses = vec![1];
    assert_eq!(drive(&mut lua, s.coroutine_resume_call(0), ResumeCall::resume), Ended::Raised);
    assert_eq!(lua.raised, Some(Val::Str(b"Unknown internal Lua error".to_vec())));
}

#[test]
fn resume_pcall_ignore_outcomes() {
    let s = unchecked();
    let mut lua = Mock::new();
    assert_eq!(drive(&mut lua, s.coroutine_resume_pcall_ignore(0), ResumePcallIgnore::resume), Ended::Done(Ok(0)));
    lua.statuses = vec![1];
    assert_eq!(drive(&mut lua, s.coroutine_resume_pcall_ignore(0), ResumePcallIgnore::resume), Ended::Done(Ok(1)));
    lua.statuses = vec![5];
    assert_eq!(drive(&mut lua, s.coroutine_resume_pcall_ignore(0), ResumePcallIgnore::resume), Ended::Done(Err(())));
    lua.push(Val::Num(1.0));
    lua.push(Val::Str(b"bad".to_vec()));
    lua.statuses = vec![2];
    assert_eq!(drive(&mut lua, s.coroutine_resume_pcall_ignore(2), ResumePcallIgnore::resume), Ended::Done(Err(())));
    assert_eq!(lua.reports, vec![Some("bad".to_string())]);
    assert_eq!(lua.stack, vec![Val::Num(1.0)]);
}

#[test]
fn new_userdata_plain_pushes_one() {
    let mut lua = Mock::new();
    lua.push(Val::Num(1.0));
    let s = unchecked();
    assert_eq!(drive(&mut lua, s.new_userdata(false, None, 8), NewUserdata::resume), Ended::Done(()));
    assert_eq!(lua.calls, vec![ApiCall::NewUserdata(8)]);
    assert_eq!(lua.stack.len(), 2);
    assert!(matches!(lua.stack[1], Val::Userdata(_)));
}

#[test]
fn new_userdata_with_finalizer_sets_metatable() {
    let mut lua = Mock::new();
    lua.push(Val::Num(1.0));
    lua.push(Val::Num(2.0));
    let s = unchecked();
    assert_eq!(drive(&mut lua, s.new_userdata(true, None, 16), NewUserdata::resume), Ended::Done(()));
    assert_eq!(lua.calls[0], ApiCall::CreateTable(0, 0));
    assert_eq!(lua.calls[1], ApiCall::PushFinalizer);
    assert_eq!(lua.calls[2], ApiCall::SetField(-2, b"__gc".to_vec()));
    assert_eq!(lua.calls[3], ApiCall::NewUserdata(16));
    assert_eq!(lua.calls[4], ApiCall::PushValue(-2));
    assert_eq!(lua.calls[5], ApiCall::SetMetatable(-2));
    assert_eq!(lua.calls[7], ApiCall::Remove(3));
    assert_eq!(lua.calls[9], ApiCall::Remove(2));
    // as many values as before: the userdata on top, the value below it removed
    assert_eq!(lua.stack.len(), 2);
    assert_eq!(lua.stack[0], Val::Num(1.0));
    let u = match lua.stack[1] {
        Val::Userdata(u) => u,
        _ => panic!("expected userdata"),
    };
    let mt = lua.metatables[&u];
    assert_eq!(lua.tables[mt].get(&b"__gc".to_vec()), Some(&Val::Func(99)));
}

#[test]
fn new_userdata_with_given_metatable() {
    let mut lua = Mock::new();
    let t = lua.new_table();
    lua.push(t);
    lua.push(Val::Num(2.0));
    let s = unchecked();
    assert_eq!(drive(&mut lua, s.new_userdata(false, Some(1), 4), NewUserdata::resume), Ended::Done(()));
    assert_eq!(lua.calls[0], ApiCall::PushValue(1));
    assert_eq!(lua.calls[1], ApiCall::NewUserdata(4));
    assert_eq!(lua.stack.len(), 2);
    assert!(matches!(lua.stack[1], Val::Userdata(_)));
}

#[test]
fn error_pushes_and_raises() {
    let mut lua = Mock::new();
    let s = unchecked();
    assert_eq!(drive(&mut lua, s.error("bad thing".to_string()), Raise::resume), Ended::Raised);
    assert_eq!(lua.calls, vec![ApiCall::PushString("bad thing".to_string()), ApiCall::Error]);
    assert_eq!(lua.raised, Some(Val::Str(b"bad thing".to_vec())));
}

#[test]
fn debug_lookups() {
    let s = unchecked();
    let mut lua = Mock::new();
    lua.statuses = vec![1];
    assert_eq!(drive(&mut lua, s.debug_getinfo_from_ar(b"Sl".to_vec()), DebugLookup::resume), Ended::Done(true));
    lua.statuses = vec![0];
    assert_eq!(drive(&mut lua, s.debug_getinfo_from_stack(b">S".to_vec()), DebugLookup::resume), Ended::Done(false));
    assert_eq!(drive(&mut lua, s.get_stack_at(1), DebugLookup::resume), Ended::Done(true));
    assert_eq!(drive(&mut lua, s.get_stack_at(5), DebugLookup::resume), Ended::Done(false));
    let before = lua.calls.len();
    assert_eq!(drive(&mut lua, s.debug_getinfo_at(5, b"S".to_vec()), DebugLookup::resume), Ended::Done(false));
    assert_eq!(lua.calls.len(), before + 1);
    lua.statuses = vec![1];
    assert_eq!(drive(&mut lua, s.debug_getinfo_at(0, b"S".to_vec()), DebugLookup::resume), Ended::Done(true));
    assert_eq!(lua.calls.last(), Some(&ApiCall::GetInfo(b"S".to_vec())));
}

#[test]
fn dump_val_renders_values() {
    let mut lua = Mock::new();
    lua.push(Val::Str(b"hi".to_vec()));
    lua.push(Val::Bool(true));
    lua.push(Val::Num(2.5));
    let t = lua.new_table();
    lua.push(t);
    let s = unchecked();
    assert_eq!(drive(&mut lua, s.dump_val(1), DumpVal::resume), Ended::Done(Dumped::Text("hi".to_string())));
    assert_eq!(drive(&mut lua, s.dump_val(2), DumpVal::resume), Ended::Done(Dumped::Boolean(true)));
    assert_eq!(drive(&mut lua, s.dump_val(3), DumpVal::resume), Ended::Done(Dumped::Number(2.5f64.to_bits())));
    assert_eq!(drive(&mut lua, s.dump_val(4), DumpVal::resume), Ended::Done(Dumped::Kind("table".to_string())));
    assert_eq!(lua.stack.len(), 4);
}

#[test]
fn dump_val_panics_on_unreadable_string() {
    let (mut d, first) = unchecked().dump_val(1);
    assert_eq!(first, ApiCall::Type(1));
    assert_eq!(d.resume(Reply::Int(LUA_TSTRING)), Step::Call(ApiCall::GetTop));
    assert_eq!(d.resume(Reply::Int(1)), Step::Call(ApiCall::TypeName(LUA_TSTRING)));
    assert_eq!(d.resume(Reply::Text(Some(b"string".to_vec()))), Step::Call(ApiCall::GetTop));
    assert_eq!(d.resume(Reply::Int(1)), Step::Call(ApiCall::SetTop(-1)));
    assert_eq!(d.resume(Reply::Nothing), Step::Call(ApiCall::PushValue(1)));
    assert_eq!(d.resume(Reply::Nothing), Step::Call(ApiCall::ToLString(-1)));
    assert_eq!(d.resume(Reply::Text(None)), Step::Call(ApiCall::SetTop(-2)));
    assert_eq!(d.resume(Reply::Nothing), Step::Panic(Failure::ValueNotString));
}

#[test]
fn dump_stack_describes_every_value() {
    let mut lua = Mock::new();
    lua.push(Val::Str(b"a".to_vec()));
    lua.push(Val::Nil);
    lua.push(Val::Bool(false));
    lua.typename_extra = 1;
    let s = unchecked();
    let dump = drive(&mut lua, s.dump_stack(), DumpStack::resume);
    assert_eq!(
        dump,
        Ended::Done(StackDump {
            size: 3,
            entries: vec![
                StackEntry { index: 1, kind: "string".to_string(), value: Shown::Text(Some("a".to_string())) },
                StackEntry { index: 2, kind: "nil".to_string(), value: Shown::Plain },
                StackEntry { index: 3, kind: "boolean".to_string(), value: Shown::Boolean(false) },
            ],
        })
    );
    assert_eq!(lua.stack.len(), 3);
}

#[test]
fn dump_stack_of_empty_stack() {
    let mut lua = Mock::new();
    let s = unchecked();
    assert_eq!(
        drive(&mut lua, s.dump_stack(), DumpStack::resume),
        Ended::Done(StackDump { size: 0, entries: vec![] })
    );
    assert_eq!(lua.calls, vec![ApiCall::GetTop]);
}

#[test]
fn wrong_reply_shape_is_a_fault() {
    let s = unchecked();
    let (mut g, _) = s.is_client();
    assert_eq!(g.resume(Reply::Int(0)), Step::Fault);
    let (mut t, _) = s.test_userdata(1, b"x".to_vec());
    assert_eq!(t.resume(Reply::Nothing), Step::Fault);
    let (mut l, _) = s.load_file(b"f".to_vec());
    assert_eq!(l.resume(Reply::Nothing), Step::Fault);
}

#[test]
fn pcall_ignore_checked_writes_unknown_status() {
    let mut lua = Mock::new();
    lua.push(Val::Func(1));
    lua.statuses = vec![4];
    assert_eq!(drive(&mut lua, checked().pcall_ignore(0, 0), PcallIgnore::resume), Ended::Done(false));
    assert_eq!(lua.status_lines, vec!["[gmod-rs] pcall_ignore unknown error: 4".to_string()]);
    assert_eq!(lua.stack, vec![Val::Str(b"boom".to_vec())]);
    let mut lua = Mock::new();
    lua.push(Val::Func(1));
    assert_eq!(drive(&mut lua, checked().pcall_ignore(0, 0), PcallIgnore::resume), Ended::Done(true));
    assert!(lua.status_lines.is_empty());
}

#[test]
fn resume_pcall_ignore_checked_writes_unknown_status() {
    let mut lua = Mock::new();
    lua.statuses = vec![5, 1];
    let s = checked();
    assert_eq!(drive(&mut lua, s.coroutine_resume_pcall_ignore(0), ResumePcallIgnore::resume), Ended::Done(Err(())));
    assert_eq!(
        lua.status_lines,
        vec!["[gmod-rs] coroutine_resume_pcall_ignore unknown error: 5".to_string()]
    );
    assert_eq!(drive(&mut lua, s.coroutine_resume_pcall_ignore(0), ResumePcallIgnore::resume), Ended::Done(Ok(1)));
    assert_eq!(lua.status_lines.len(), 1);
    assert_eq!(drive(&mut lua, unchecked().coroutine_resume_pcall_ignore(0), ResumePcallIgnore::resume), Ended::Done(Ok(0)));
    lua.statuses = vec![6];
    assert_eq!(drive(&mut lua, unchecked().coroutine_resume_pcall_ignore(0), ResumePcallIgnore::resume), Ended::Done(Err(())));
    assert_eq!(lua.status_lines.len(), 1);
}

#[test]
fn type_tests() {
    let mut lua = Mock::new();
    lua.push(Val::Nil);
    lua.push(Val::Func(1));
    let t = lua.new_table();
    lua.push(t);
    lua.push(Val::Bool(false));
    let s = unchecked();
    assert_eq!(drive(&mut lua, s.is_nil(1), TypeTest::resume), Ended::Done(true));
    assert_eq!(drive(&mut lua, s.is_nil(2), TypeTest::resume), Ended::Done(false));
    assert_eq!(drive(&mut lua, s.is_none(9), TypeTest::resume), Ended::Done(true));
    assert_eq!(drive(&mut lua, s.is_none(1), TypeTest::resume), Ended::Done(false));
    assert_eq!(drive(&mut lua, s.is_function(2), TypeTest::resume), Ended::Done(true));
    assert_eq!(drive(&mut lua, s.is_table(3), TypeTest::resume), Ended::Done(true));
    assert_eq!(drive(&mut lua, s.is_boolean(-1), TypeTest::resume), Ended::Done(true));
    assert_eq!(drive(&mut lua, s.is_boolean(3), TypeTest::resume), Ended::Done(false));
    assert_eq!(lua.stack.len(), 4);
}

#[test]
fn dump_val_keeps_values_in_place() {
    let mut lua = Mock::new();
    lua.push(Val::Num(3.0));
    lua.push(Val::Str(b"s".to_vec()));
    let before = lua.stack.clone();
    let s = unchecked();
    assert_eq!(drive(&mut lua, s.dump_val(2), DumpVal::resume), Ended::Done(Dumped::Text("s".to_string())));
    assert_eq!(drive(&mut lua, s.dump_val(1), DumpVal::resume), Ended::Done(Dumped::Number(3.0f64.to_bits())));
    assert_eq!(lua.stack, before);
}
