//! The calls that the library asks the host to make on a Lua state, the replies
//! that come back, and their mathematical views.
use vstd::prelude::*;

verus! {

/// One call into the Lua C API (or, for `ReportError`, into the host's error
/// output), with plain arguments. Names and source texts are the bytes of the
/// C string without its terminating NUL.
#[derive(Debug, Clone, PartialEq)]
pub enum ApiCall {
    /// `luaL_newstate()`.
    NewState,
    /// `luaL_openlibs` on the state that `NewState` returned.
    OpenLibs,
    /// `lua_gettop`.
    GetTop,
    /// `lua_settop(index)`.
    SetTop(i32),
    /// `lua_remove(index)`.
    Remove(i32),
    /// `lua_pushvalue(index)`.
    PushValue(i32),
    /// `lua_pushlstring` with the UTF-8 bytes of the string.
    PushString(String),
    /// `lua_pushboolean(b)`.
    PushBoolean(i32),
    /// `lua_rawgeti(table_index, n)`.
    RawGetI(i32, i32),
    /// `lua_pushcclosure(__gc::<T>, 0)`: the finaliser of the userdata type being created.
    PushFinalizer,
    /// `lua_createtable(narr, nrec)`.
    CreateTable(i32, i32),
    /// `lua_getfield(index, key)`.
    GetField(i32, Vec<u8>),
    /// `lua_setfield(index, key)`.
    SetField(i32, Vec<u8>),
    /// `lua_type(index)`.
    Type(i32),
    /// `lua_typename(type_code)`.
    TypeName(i32),
    /// `lua_toboolean(index)`.
    ToBoolean(i32),
    /// `lua_tolstring(index)`.
    ToLString(i32),
    /// `luaL_checklstring(arg)`: raises an error unless the argument is a string.
    CheckLString(i32),
    /// `lua_tonumber(index)`.
    ToNumber(i32),
    /// `lua_touserdata(index)`.
    ToUserdata(i32),
    /// `lua_getmetatable(index)`.
    GetMetatable(i32),
    /// `lua_setmetatable(index)`.
    SetMetatable(i32),
    /// `lua_rawequal(index1, index2)`.
    RawEqual(i32, i32),
    /// `luaL_checktype(arg, type_code)`.
    CheckType(i32, i32),
    /// `lua_call(nargs, nresults)`.
    Call(i32, i32),
    /// `lua_pcall(nargs, nresults, errfunc)`.
    PCall(i32, i32, i32),
    /// `lua_resume(narg)`.
    Resume(i32),
    /// `luaL_loadstring(source)`.
    LoadString(Vec<u8>),
    /// `luaL_loadbuffer(buffer, buffer length, chunk name)`.
    LoadBuffer(Vec<u8>, Vec<u8>),
    /// `luaL_loadfile(path)`.
    LoadFile(Vec<u8>),
    /// `lua_newuserdata(size)`.
    NewUserdata(usize),
    /// `lua_error()`: raises the value on top of the stack; it does not return.
    Error,
    /// `lua_getstack(level, ar)` on the host's activation record.
    GetStack(i32),
    /// `lua_getinfo(what, ar)` on the host's activation record.
    GetInfo(Vec<u8>),
    /// Writes `[ERROR] {message:?}` to standard error.
    ReportError(Option<String>),
    /// Writes `{text}{status}` to standard error.
    ReportStatus(String, i32),
}

/// What a call returned.
#[derive(Debug, Clone, PartialEq)]
pub enum Reply {
    /// The call returns nothing.
    Nothing,
    /// An `int` result.
    Int(i32),
    /// A pointer result, by whether it is non-null.
    Pointer(bool),
    /// A C string result: `None` for a null pointer, else its bytes.
    Text(Option<Vec<u8>>),
    /// A `lua_Number` result, by the bits of the `f64`.
    Number(u64),
}

/// The view of an [`ApiCall`].
pub enum Op {
    NewState,
    OpenLibs,
    GetTop,
    SetTop(i32),
    Remove(i32),
    PushValue(i32),
    PushString(Seq<char>),
    PushBoolean(i32),
    RawGetI(i32, i32),
    PushFinalizer,
    CreateTable(i32, i32),
    GetField(i32, Seq<u8>),
    SetField(i32, Seq<u8>),
    Type(i32),
    TypeName(i32),
    ToBoolean(i32),
    ToLString(i32),
    CheckLString(i32),
    ToNumber(i32),
    ToUserdata(i32),
    GetMetatable(i32),
    SetMetatable(i32),
    RawEqual(i32, i32),
    CheckType(i32, i32),
    Call(i32, i32),
    PCall(i32, i32, i32),
    Resume(i32),
    LoadString(Seq<u8>),
    LoadBuffer(Seq<u8>, Seq<u8>),
    LoadFile(Seq<u8>),
    NewUserdata(usize),
    Error,
    GetStack(i32),
    GetInfo(Seq<u8>),
    ReportError(Option<Seq<char>>),
    ReportStatus(Seq<char>, i32),
}

/// The view of a [`Reply`].
pub enum Answer {
    Nothing,
    Int(i32),
    Pointer(bool),
    Text(Option<Seq<u8>>),
    Number(u64),
}

/// One call with the answer it got.
pub struct Exchange {
    pub call: Op,
    pub answer: Answer,
}

impl View for ApiCall {
    type V = Op;

    open spec fn view(&self) -> Op {
        match self {
            ApiCall::NewState => Op::NewState,
            ApiCall::OpenLibs => Op::OpenLibs,
            ApiCall::GetTop => Op::GetTop,
            ApiCall::SetTop(i) => Op::SetTop(*i),
            ApiCall::Remove(i) => Op::Remove(*i),
            ApiCall::PushValue(i) => Op::PushValue(*i),
            ApiCall::PushString(s) => Op::PushString(s@),
            ApiCall::PushBoolean(b) => Op::PushBoolean(*b),
            ApiCall::RawGetI(t, n) => Op::RawGetI(*t, *n),
            ApiCall::PushFinalizer => Op::PushFinalizer,
            ApiCall::CreateTable(a, b) => Op::CreateTable(*a, *b),
            ApiCall::GetField(i, k) => Op::GetField(*i, k@),
            ApiCall::SetField(i, k) => Op::SetField(*i, k@),
            ApiCall::Type(i) => Op::Type(*i),
            ApiCall::TypeName(t) => Op::TypeName(*t),
            ApiCall::ToBoolean(i) => Op::ToBoolean(*i),
            ApiCall::ToLString(i) => Op::ToLString(*i),
            ApiCall::CheckLString(i) => Op::CheckLString(*i),
            ApiCall::ToNumber(i) => Op::ToNumber(*i),
            ApiCall::ToUserdata(i) => Op::ToUserdata(*i),
            ApiCall::GetMetatable(i) => Op::GetMetatable(*i),
            ApiCall::SetMetatable(i) => Op::SetMetatable(*i),
            ApiCall::RawEqual(a, b) => Op::RawEqual(*a, *b),
            ApiCall::CheckType(a, t) => Op::CheckType(*a, *t),
            ApiCall::Call(a, r) => Op::Call(*a, *r),
            ApiCall::PCall(a, r, e) => Op::PCall(*a, *r, *e),
            ApiCall::Resume(a) => Op::Resume(*a),
            ApiCall::LoadString(s) => Op::LoadString(s@),
            ApiCall::LoadBuffer(b, n) => Op::LoadBuffer(b@, n@),
            ApiCall::LoadFile(p) => Op::LoadFile(p@),
            ApiCall::NewUserdata(n) => Op::NewUserdata(*n),
            ApiCall::Error => Op::Error,
            ApiCall::GetStack(l) => Op::GetStack(*l),
            ApiCall::GetInfo(w) => Op::GetInfo(w@),
            ApiCall::ReportStatus(t, n) => Op::ReportStatus(t@, *n),
            ApiCall::ReportError(m) => Op::ReportError(
                match m {
                    Some(s) => Some(s@),
                    None => None,
                },
            ),
        }
    }
}

impl View for Reply {
    type V = Answer;

    open spec fn view(&self) -> Answer {
        match self {
            Reply::Nothing => Answer::Nothing,
            Reply::Int(n) => Answer::Int(*n),
            Reply::Pointer(p) => Answer::Pointer(*p),
            Reply::Text(t) => Answer::Text(
                match t {
                    Some(b) => Some(b@),
                    None => None,
                },
            ),
            Reply::Number(bits) => Answer::Number(*bits),
        }
    }
}

/// Whether `answer` is a possible answer to `call`, by the shape of the C
/// function's result (and, for `lua_gettop`, that a stack size is not negative).
/// `lua_error` never returns, so nothing answers it.
pub open spec fn fits(call: Op, answer: Answer) -> bool {
    match call {
        Op::GetTop => answer matches Answer::Int(n) && n >= 0,
        Op::Type(_) | Op::ToBoolean(_) | Op::GetMetatable(_) | Op::SetMetatable(_)
        | Op::RawEqual(_, _) | Op::PCall(_, _, _) | Op::Resume(_) | Op::LoadString(_)
        | Op::LoadBuffer(_, _) | Op::LoadFile(_) | Op::GetStack(_) | Op::GetInfo(_) => answer is Int,
        Op::NewState | Op::ToUserdata(_) => answer is Pointer,
        Op::TypeName(_) | Op::CheckLString(_) => answer matches Answer::Text(Some(_)),
        Op::ToLString(_) => answer is Text,
        Op::ToNumber(_) => answer is Number,
        Op::Error => false,
        _ => answer is Nothing,
    }
}

/// An exchange whose call returns nothing.
pub open spec fn quiet(call: Op) -> Exchange {
    Exchange { call, answer: Answer::Nothing }
}

/// The log `log` after `call` got `answer`.
pub open spec fn answered(log: Seq<Exchange>, call: Op, answer: Answer) -> Seq<Exchange> {
    log.push(Exchange { call, answer })
}

/// Why a conversation ends in a panic (an `expect` or `unwrap` that fails).
#[derive(Debug, Clone, PartialEq)]
pub enum Failure {
    /// The runtime error's value is not convertible to a string
    /// (`expect("Expected a string here")`, checked builds only).
    ErrorNotString,
    /// A value of type "string" could not be read as a string (`unwrap`).
    ValueNotString,
}

/// What a conversation asks of the host after each reply.
#[derive(Debug, Clone, PartialEq)]
pub enum Step<T> {
    /// Make this call and resume with its reply.
    Call(ApiCall),
    /// The conversation is over, with this outcome.
    Done(T),
    /// The conversation ends in a panic.
    Panic(Failure),
    /// The reply did not fit the call that was made; nothing more is asked.
    Fault,
}

/// The ghost record of a conversation: the exchanges so far and the call
/// that awaits its reply.
pub(crate) struct Tape {
    log: Ghost<Seq<Exchange>>,
    pending: Ghost<Op>,
}

impl Tape {
    pub closed spec fn log(&self) -> Seq<Exchange> {
        self.log@
    }

    pub closed spec fn pending(&self) -> Op {
        self.pending@
    }

    /// A tape on which `first` is the first call.
    pub fn new(first: &ApiCall) -> (t: Tape)
        ensures
            t.log() == Seq::<Exchange>::empty(),
            t.pending() == first@,
    {
        Tape { log: Ghost(Seq::empty()), pending: Ghost(first@) }
    }

    /// Records that the pending call got `reply`.
    pub fn record(&mut self, reply: &Reply)
        ensures
            final(self).log() == answered(old(self).log(), old(self).pending(), reply@),
            final(self).pending() == old(self).pending(),
    {
        let ghost log = answered(self.log@, self.pending@, reply@);
        self.log = Ghost(log);
    }

    /// Records that `next` is the call now awaiting its reply.
    pub fn expect(&mut self, next: &ApiCall)
        ensures
            final(self).log() == old(self).log(),
            final(self).pending() == next@,
    {
        self.pending = Ghost(next@);
    }
}

/// Lua's C booleans: the API returns 1 for true.
pub open spec fn is_true(v: i32) -> bool {
    v == 1
}

/// Reads the result of `luaL_newmetatable`: whether the registry already held
/// a metatable under the name (the call then returns 0).
pub fn metatable_was_present(result: i32) -> (present: bool)
    ensures
        present == (result == 0),
{
    result == 0
}

/// Reads a C boolean returned by `lua_toboolean`, `lua_rawequal` or `lua_equal`.
pub fn lua_boolean(v: i32) -> (b: bool)
    ensures
        b == is_true(v),
{
    v == 1
}

} // verus!
