//! Constants of the Lua 5.1 / LuaJIT C API.
use vstd::prelude::*;

verus! {

/// Pseudo-index of the registry table.
pub const LUA_REGISTRYINDEX: i32 = -10000;
/// Pseudo-index of the running function's environment.
pub const LUA_ENVIRONINDEX: i32 = -10001;
/// Pseudo-index of the table of globals.
pub const LUA_GLOBALSINDEX: i32 = -10002;

/// Status: success.
pub const LUA_OK: i32 = 0;
/// Status: the coroutine yielded.
pub const LUA_YIELD: i32 = 1;
/// Status: a runtime error.
pub const LUA_ERRRUN: i32 = 2;
/// Status: a syntax error while compiling.
pub const LUA_ERRSYNTAX: i32 = 3;
/// Status: a memory allocation error.
pub const LUA_ERRMEM: i32 = 4;
/// Status: an error while running the error handler.
pub const LUA_ERRERR: i32 = 5;
/// Status: a file could not be opened or read.
pub const LUA_ERRFILE: i32 = 6;

/// Type code of a non-valid (but acceptable) index.
pub const LUA_TNONE: i32 = -1;
pub const LUA_TNIL: i32 = 0;
pub const LUA_TBOOLEAN: i32 = 1;
pub const LUA_TLIGHTUSERDATA: i32 = 2;
pub const LUA_TNUMBER: i32 = 3;
pub const LUA_TSTRING: i32 = 4;
pub const LUA_TTABLE: i32 = 5;
pub const LUA_TFUNCTION: i32 = 6;
pub const LUA_TUSERDATA: i32 = 7;
pub const LUA_TTHREAD: i32 = 8;

/// `nresults` value asking for all results.
pub const LUA_MULTRET: i32 = -1;

} // verus!
