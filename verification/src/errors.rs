//! Runtime errors: `pcall_ignore`, the coroutine resumes, `error`, and the
//! report of an ignored error through `ErrorNoHaltWithStack`.
use vstd::prelude::*;
use vstd::string::StringSliceAdditionalSpecFns;
use crate::api::{answered, fits, quiet, Answer, ApiCall, Exchange, Failure, Op, Reply, Step, Tape};
use crate::consts::{LUA_ERRMEM, LUA_ERRRUN, LUA_GLOBALSINDEX, LUA_OK, LUA_TNIL, LUA_YIELD};
use crate::text::{bytes_view, c_name, decode_lossy_opt, lossy_opt, utf8_lossy};

verus! {

/// The text that checked builds pass to `ErrorNoHaltWithStack` for an error
/// whose value reads as `message`.
pub open spec fn tagged(message: Seq<char>) -> Seq<char> {
    "[pcall_ignore] "@ + message
}

/// Every exchange of reporting an ignored runtime error, whose value sits just
/// below the top: fetch the global `ErrorNoHaltWithStack` and look at its type
/// `t`. If it is nil, write the error (read as `o`) to standard error and pop the
/// nil. Otherwise call it with one argument: in checked builds the error read as
/// a string and tagged (no string: a panic, after the read), else the error value
/// itself. Last, pop the error value.
pub open spec fn report_exchanges(checked: bool, t: i32, o: Option<Seq<u8>>) -> Seq<Exchange> {
    let fetch = Exchange {
        call: Op::GetField(LUA_GLOBALSINDEX, "ErrorNoHaltWithStack".spec_bytes()),
        answer: Answer::Nothing,
    };
    let kind = Exchange { call: Op::Type(-1i32), answer: Answer::Int(t) };
    let read = Exchange { call: Op::ToLString(-2i32), answer: Answer::Text(o) };
    let call = Exchange { call: Op::Call(1i32, 0i32), answer: Answer::Nothing };
    let pop = Exchange { call: Op::SetTop(-2i32), answer: Answer::Nothing };
    if t == LUA_TNIL {
        seq![
            fetch,
            kind,
            read,
            Exchange { call: Op::ReportError(lossy_opt(o)), answer: Answer::Nothing },
            pop,
            pop,
        ]
    } else if checked {
        match o {
            Some(b) => seq![
                fetch,
                kind,
                read,
                Exchange { call: Op::PushString(tagged(utf8_lossy(b))), answer: Answer::Nothing },
                call,
                pop,
            ],
            None => seq![fetch, kind, read],
        }
    } else {
        seq![fetch, kind, Exchange { call: Op::PushValue(-2i32), answer: Answer::Nothing }, call, pop]
    }
}

/// Whether the report ends in a panic: a checked build, a callable reporter and
/// an error value that is not a string.
pub open spec fn report_panics(checked: bool, t: i32, o: Option<Seq<u8>>) -> bool {
    t != LUA_TNIL && checked && o is None
}

/// The complete conversation of the report (`handle_pcall_ignore`); `panicked`
/// tells whether it ends in a panic.
pub open spec fn error_report_conversation(checked: bool, log: Seq<Exchange>, panicked: bool) -> bool {
    exists|t: i32, o: Option<Seq<u8>>|
        #![trigger report_exchanges(checked, t, o)]
        log == report_exchanges(checked, t, o) && panicked == report_panics(checked, t, o)
}

/// The conversation that reports an ignored runtime error.
pub struct ErrorReport {
    checked: bool,
    count: usize,
    type_code: i32,
    message: Option<Vec<u8>>,
    tape: Tape,
}

impl ErrorReport {
    pub closed spec fn checked(&self) -> bool {
        self.checked
    }

    /// The exchanges so far.
    pub closed spec fn log(&self) -> Seq<Exchange> {
        self.tape.log()
    }

    /// The call awaiting its reply.
    pub closed spec fn pending(&self) -> Op {
        self.tape.pending()
    }

    /// A bound on the replies still to come.
    pub closed spec fn fuel(&self) -> nat {
        (6 - self.count) as nat
    }

    closed spec fn script(&self) -> Seq<Exchange> {
        report_exchanges(self.checked, self.type_code, bytes_view(&self.message))
    }

    /// The conversation is under way: its log begins a complete conversation and
    /// the pending call is the next one in it.
    pub closed spec fn wf(&self) -> bool {
        let log = self.tape.log();
        let full = self.script();
        &&& self.count == log.len()
        &&& log.len() < full.len()
        &&& log == full.take(log.len() as int)
        &&& self.tape.pending() == full[log.len() as int].call
    }

    /// Starts reporting, in a checked build or not; returns the first call.
    pub fn start(checked: bool) -> (r: (ErrorReport, ApiCall))
        ensures
            r.0.wf(),
            r.0.checked() == checked,
            r.0.log() == Seq::<Exchange>::empty(),
            r.0.pending() == r.1@,
            r.0.fuel() == 6,
    {
        let first = ApiCall::GetField(LUA_GLOBALSINDEX, c_name("ErrorNoHaltWithStack"));
        let tape = Tape::new(&first);
        let r = ErrorReport { checked, count: 0, type_code: 0, message: None, tape };
        assert(r.tape.log() =~= r.script().take(0));
        (r, first)
    }

    /// The length of the whole script, once the type answer is known.
    fn script_len(&self) -> (n: usize)
        ensures
            n == self.script().len(),
    {
        if self.type_code == LUA_TNIL {
            6
        } else if self.checked {
            match &self.message {
                Some(_) => 6,
                None => 3,
            }
        } else {
            5
        }
    }

    /// The call at position `k` of the script, for the positions that follow a
    /// call that returns nothing.
    fn call_after_nothing(&self, k: usize) -> (c: ApiCall)
        requires
            1 <= k < self.script().len(),
            k == 1 || (k >= 4 && self.type_code == LUA_TNIL) || (k >= 4 && self.checked)
                || (k >= 3 && !self.checked && self.type_code != LUA_TNIL),
        ensures
            c@ == self.script()[k as int].call,
    {
        let ghost full = self.script();
        if k == 1 {
            ApiCall::Type(-1)
        } else if self.type_code == LUA_TNIL {
            assert(k == 4 || k == 5);
            assert(full[4].call == Op::SetTop(-2i32) && full[5].call == Op::SetTop(-2i32));
            ApiCall::SetTop(-2)
        } else if self.checked {
            assert(self.message is Some);
            if k == 4 {
                assert(full[4].call == Op::Call(1i32, 0i32));
                ApiCall::Call(1, 0)
            } else {
                assert(k == 5 && full[5].call == Op::SetTop(-2i32));
                ApiCall::SetTop(-2)
            }
        } else {
            if k == 3 {
                assert(full[3].call == Op::Call(1i32, 0i32));
                ApiCall::Call(1, 0)
            } else {
                assert(k == 4 && full[4].call == Op::SetTop(-2i32));
                ApiCall::SetTop(-2)
            }
        }
    }

    /// Hands in the reply to the pending call; returns what comes next.
    pub fn resume(&mut self, reply: Reply) -> (step: Step<()>)
        requires
            old(self).wf(),
        ensures
            final(self).checked() == old(self).checked(),
            match step {
                Step::Call(c) => {
                    &&& final(self).wf()
                    &&& final(self).pending() == c@
                    &&& final(self).log() == answered(old(self).log(), old(self).pending(), reply@)
                    &&& final(self).fuel() < old(self).fuel()
                },
                Step::Done(_) => error_report_conversation(
                    old(self).checked(),
                    answered(old(self).log(), old(self).pending(), reply@),
                    false,
                ),
                Step::Panic(f) => f == Failure::ErrorNotString && error_report_conversation(
                    old(self).checked(),
                    answered(old(self).log(), old(self).pending(), reply@),
                    true,
                ),
                Step::Fault => !fits(old(self).pending(), reply@),
            },
    {
        if self.count == 1 {
            // the type of `ErrorNoHaltWithStack`
            match reply {
                Reply::Int(t) => {
                    self.type_code = t;
                    self.tape.record(&reply);
                    self.count = 2;
                    let next = if t == LUA_TNIL || self.checked {
                        ApiCall::ToLString(-2)
                    } else {
                        ApiCall::PushValue(-2)
                    };
                    self.tape.expect(&next);
                    assert(self.tape.log() =~= self.script().take(2));
                    Step::Call(next)
                },
                _ => Step::Fault,
            }
        } else if self.count == 2 && (self.type_code == LUA_TNIL || self.checked) {
            // the error value, read as a string
            self.tape.record(&reply);
            match reply {
                Reply::Text(o) => {
                    let text = decode_lossy_opt(&o);
                    self.message = o;
                    self.count = 3;
                    assert(self.tape.log() =~= self.script().take(3));
                    if self.type_code == LUA_TNIL {
                        let next = ApiCall::ReportError(text);
                        self.tape.expect(&next);
                        Step::Call(next)
                    } else {
                        match text {
                            Some(m) => {
                                let mut said = String::from_str("[pcall_ignore] ");
                                said.append(m.as_str());
                                let next = ApiCall::PushString(said);
                                self.tape.expect(&next);
                                Step::Call(next)
                            },
                            None => {
                                assert(self.tape.log() =~= self.script());
                                Step::Panic(Failure::ErrorNotString)
                            },
                        }
                    }
                },
                _ => Step::Fault,
            }
        } else {
            // every other call returns nothing
            match reply {
                Reply::Nothing => {
                    self.tape.record(&reply);
                    self.count = self.count + 1;
                    let now = self.count;
                    assert(self.tape.log() =~= self.script().take(now as int));
                    if now == self.script_len() {
                        assert(self.tape.log() =~= self.script());
                        return Step::Done(());
                    }
                    let next = self.call_after_nothing(now);
                    self.tape.expect(&next);
                    Step::Call(next)
                },
                _ => Step::Fault,
            }
        }
    }
}

/// Whether `status` is one the caller expects: success, and for a coroutine
/// (`yields`) also a yield.
pub open spec fn expected_status(status: i32, yields: bool) -> bool {
    status == LUA_OK || (yields && status == LUA_YIELD)
}

/// The complete conversation of making `first`, which returns the status
/// `status`: a runtime error is reported (`panicked`: the report ends in a
/// panic); in checked builds any other unexpected status is written to standard
/// error after `text`.
pub open spec fn guarded_conversation(
    checked: bool,
    first: Op,
    yields: bool,
    text: Seq<char>,
    log: Seq<Exchange>,
    status: i32,
    panicked: bool,
) -> bool {
    &&& log.len() >= 1
    &&& log[0] == Exchange { call: first, answer: Answer::Int(status) }
    &&& if status == LUA_ERRRUN {
        error_report_conversation(checked, log.skip(1), panicked)
    } else if checked && !expected_status(status, yields) {
        log.len() == 2 && log[1] == quiet(Op::ReportStatus(text, status)) && !panicked
    } else {
        log.len() == 1 && !panicked
    }
}

/// A call that returns a status, whose runtime error is reported and ignored.
pub struct Guarded {
    checked: bool,
    first: Ghost<Op>,
    yields: bool,
    text: String,
    stage: u8,
    status: i32,
    sub: ErrorReport,
    tape: Tape,
}

impl Guarded {
    pub closed spec fn checked(&self) -> bool {
        self.checked
    }

    pub closed spec fn first(&self) -> Op {
        self.first@
    }

    pub closed spec fn yields(&self) -> bool {
        self.yields
    }

    pub closed spec fn text(&self) -> Seq<char> {
        self.text@
    }

    /// The exchanges so far.
    pub closed spec fn log(&self) -> Seq<Exchange> {
        self.tape.log()
    }

    /// The call awaiting its reply.
    pub closed spec fn pending(&self) -> Op {
        self.tape.pending()
    }

    /// A bound on the replies still to come.
    pub closed spec fn fuel(&self) -> nat {
        if self.stage == 0 {
            7
        } else if self.stage == 1 {
            self.sub.fuel()
        } else {
            1
        }
    }

    /// The conversation is under way: its log begins a complete conversation and
    /// the pending call is the next one in it.
    pub closed spec fn wf(&self) -> bool {
        let log = self.tape.log();
        &&& self.stage < 3
        &&& self.first@ is PCall || self.first@ is Resume
        &&& self.stage == 0 ==> log.len() == 0 && self.tape.pending() == self.first@
        &&& self.stage == 1 ==> {
            &&& self.status == LUA_ERRRUN
            &&& self.sub.wf()
            &&& self.sub.checked() == self.checked
            &&& self.sub.fuel() <= 6
            &&& log == seq![Exchange { call: self.first@, answer: Answer::Int(LUA_ERRRUN) }]
                + self.sub.log()
            &&& self.tape.pending() == self.sub.pending()
        }
        &&& self.stage == 2 ==> {
            &&& self.checked
            &&& self.status != LUA_ERRRUN
            &&& !expected_status(self.status, self.yields)
            &&& log == seq![Exchange { call: self.first@, answer: Answer::Int(self.status) }]
            &&& self.tape.pending() == Op::ReportStatus(self.text@, self.status)
        }
    }

    /// Starts with `first`, a call that returns a status; `yields` tells
    /// whether a yield is expected too, and `text` leads the line written for an
    /// unexpected status.
    pub fn start(checked: bool, first: ApiCall, yields: bool, text: String) -> (r: (Guarded, ApiCall))
        requires
            first@ is PCall || first@ is Resume,
        ensures
            r.0.wf(),
            r.0.checked() == checked,
            r.0.first() == first@,
            r.0.yields() == yields,
            r.0.text() == text@,
            r.0.log() == Seq::<Exchange>::empty(),
            r.0.pending() == r.1@,
            r.1@ == first@,
    {
        let tape = Tape::new(&first);
        let (sub, _) = ErrorReport::start(checked);
        (Guarded { checked, first: Ghost(first@), yields, text, stage: 0, status: 0, sub, tape }, first)
    }

    /// Hands in the reply to the pending call; returns what comes next, and at
    /// the end the status that the first call returned.
    pub fn resume(&mut self, reply: Reply) -> (step: Step<i32>)
        requires
            old(self).wf(),
        ensures
            final(self).checked() == old(self).checked(),
            final(self).first() == old(self).first(),
            final(self).yields() == old(self).yields(),
            final(self).text() == old(self).text(),
            match step {
                Step::Call(c) => {
                    &&& final(self).wf()
                    &&& final(self).pending() == c@
                    &&& final(self).log() == answered(old(self).log(), old(self).pending(), reply@)
                    &&& final(self).fuel() < old(self).fuel()
                },
                Step::Done(status) => guarded_conversation(
                    old(self).checked(),
                    old(self).first(),
                    old(self).yields(),
                    old(self).text(),
                    answered(old(self).log(), old(self).pending(), reply@),
                    status,
                    false,
                ),
                Step::Panic(f) => f == Failure::ErrorNotString && guarded_conversation(
                    old(self).checked(),
                    old(self).first(),
                    old(self).yields(),
                    old(self).text(),
                    answered(old(self).log(), old(self).pending(), reply@),
                    LUA_ERRRUN,
                    true,
                ),
                Step::Fault => !fits(old(self).pending(), reply@),
            },
    {
        if self.stage == 0 {
            match reply {
                Reply::Int(status) => {
                    self.tape.record(&reply);
                    self.status = status;
                    if status != LUA_ERRRUN {
                        let expected = status == LUA_OK || (self.yields && status == LUA_YIELD);
                        if self.checked && !expected {
                            let next = ApiCall::ReportStatus(self.text.clone(), status);
                            self.tape.expect(&next);
                            self.stage = 2;
                            assert(self.tape.log() =~= seq![
                                Exchange { call: self.first@, answer: Answer::Int(status) },
                            ]);
                            return Step::Call(next);
                        }
                        return Step::Done(status);
                    }
                    let (sub, next) = ErrorReport::start(self.checked);
                    self.sub = sub;
                    self.tape.expect(&next);
                    self.stage = 1;
                    assert(self.tape.log() =~= seq![
                        Exchange { call: self.first@, answer: Answer::Int(LUA_ERRRUN) },
                    ] + self.sub.log());
                    Step::Call(next)
                },
                _ => Step::Fault,
            }
        } else if self.stage == 2 {
            match reply {
                Reply::Nothing => {
                    self.tape.record(&reply);
                    assert(self.tape.log() =~= seq![
                        Exchange { call: self.first@, answer: Answer::Int(self.status) },
                        quiet(Op::ReportStatus(self.text@, self.status)),
                    ]);
                    Step::Done(self.status)
                },
                _ => Step::Fault,
            }
        } else {
            let ghost head = seq![Exchange { call: self.first@, answer: Answer::Int(LUA_ERRRUN) }];
            let ghost seg = answered(self.sub.log(), self.sub.pending(), reply@);
            self.tape.record(&reply);
            assert(self.tape.log() =~= head + seg);
            assert(self.tape.log().skip(1) =~= seg);
            match self.sub.resume(reply) {
                Step::Call(c) => {
                    self.tape.expect(&c);
                    Step::Call(c)
                },
                Step::Done(_) => Step::Done(self.status),
                Step::Panic(f) => {
                    assert(guarded_conversation(
                        self.checked,
                        self.first@,
                        self.yields,
                        self.text@,
                        self.tape.log(),
                        LUA_ERRRUN,
                        true,
                    ));
                    Step::Panic(f)
                },
                Step::Fault => Step::Fault,
            }
        }
    }
}

/// The complete conversation of `pcall_ignore(nargs, nresults)`: `lua_pcall` with
/// no message handler, a runtime error reported and ignored; `out` is whether
/// the call succeeded (`None`: the report panicked).
pub open spec fn pcall_ignore_conversation(checked: bool, nargs: i32, nresults: i32, log: Seq<Exchange>, out: Option<bool>) -> bool {
    &&& log.len() >= 1
    &&& log[0].answer matches Answer::Int(status) && guarded_conversation(
        checked,
        Op::PCall(nargs, nresults, 0i32),
        false,
        "[gmod-rs] pcall_ignore unknown error: "@,
        log,
        status,
        out is None,
    ) && (out matches Some(ok) ==> ok == (status == LUA_OK))
}

/// The conversation of `pcall_ignore`.
pub struct PcallIgnore {
    nargs: i32,
    nresults: i32,
    inner: Guarded,
}

impl PcallIgnore {
    pub closed spec fn checked(&self) -> bool {
        self.inner.checked()
    }

    pub closed spec fn nargs(&self) -> i32 {
        self.nargs
    }

    pub closed spec fn nresults(&self) -> i32 {
        self.nresults
    }

    /// The exchanges so far.
    pub closed spec fn log(&self) -> Seq<Exchange> {
        self.inner.log()
    }

    /// The call awaiting its reply.
    pub closed spec fn pending(&self) -> Op {
        self.inner.pending()
    }

    /// A bound on the replies still to come.
    pub closed spec fn fuel(&self) -> nat {
        self.inner.fuel()
    }

    /// The conversation is under way: its log begins a complete conversation and
    /// the pending call is the next one in it.
    pub closed spec fn wf(&self) -> bool {
        &&& self.inner.wf()
        &&& self.inner.first() == Op::PCall(self.nargs, self.nresults, 0i32)
        &&& !self.inner.yields()
        &&& self.inner.text() == "[gmod-rs] pcall_ignore unknown error: "@
    }

    /// Starts `pcall_ignore(nargs, nresults)`; returns the first call.
    pub fn start(checked: bool, nargs: i32, nresults: i32) -> (r: (PcallIgnore, ApiCall))
        ensures
            r.0.wf(),
            r.0.checked() == checked,
            r.0.nargs() == nargs,
            r.0.nresults() == nresults,
            r.0.log() == Seq::<Exchange>::empty(),
            r.0.pending() == r.1@,
            r.1@ == Op::PCall(nargs, nresults, 0i32),
    {
        let (inner, first) = Guarded::start(
            checked,
            ApiCall::PCall(nargs, nresults, 0),
            false,
            String::from_str("[gmod-rs] pcall_ignore unknown error: "),
        );
        (PcallIgnore { nargs, nresults, inner }, first)
    }

    /// Hands in the reply to the pending call; returns what comes next.
    pub fn resume(&mut self, reply: Reply) -> (step: Step<bool>)
        requires
            old(self).wf(),
        ensures
            final(self).checked() == old(self).checked(),
            final(self).nargs() == old(self).nargs(),
            final(self).nresults() == old(self).nresults(),
            match step {
                Step::Call(c) => {
                    &&& final(self).wf()
                    &&& final(self).pending() == c@
                    &&& final(self).log() == answered(old(self).log(), old(self).pending(), reply@)
                    &&& final(self).fuel() < old(self).fuel()
                },
                Step::Done(ok) => pcall_ignore_conversation(
                    old(self).checked(),
                    old(self).nargs(),
                    old(self).nresults(),
                    answered(old(self).log(), old(self).pending(), reply@),
                    Some(ok),
                ),
                Step::Panic(f) => f == Failure::ErrorNotString && pcall_ignore_conversation(
                    old(self).checked(),
                    old(self).nargs(),
                    old(self).nresults(),
                    answered(old(self).log(), old(self).pending(), reply@),
                    None,
                ),
                Step::Fault => !fits(old(self).pending(), reply@),
            },
    {
        match self.inner.resume(reply) {
            Step::Call(c) => Step::Call(c),
            Step::Done(status) => Step::Done(status == LUA_OK),
            Step::Panic(f) => Step::Panic(f),
            Step::Fault => Step::Fault,
        }
    }
}

/// What `coroutine_resume_pcall_ignore` returns for the status of `lua_resume`:
/// the status when the coroutine finished or yielded, else an error.
pub open spec fn resume_outcome(status: i32) -> Result<i32, ()> {
    if status == LUA_OK || status == LUA_YIELD {
        Ok(status)
    } else {
        Err(())
    }
}

/// The complete conversation of `coroutine_resume_pcall_ignore(narg)`:
/// `lua_resume`, a runtime error reported and ignored (`None`: the report panicked).
pub open spec fn resume_pcall_ignore_conversation(checked: bool, narg: i32, log: Seq<Exchange>, out: Option<Result<i32, ()>>) -> bool {
    &&& log.len() >= 1
    &&& log[0].answer matches Answer::Int(status) && guarded_conversation(
        checked,
        Op::Resume(narg),
        true,
        "[gmod-rs] coroutine_resume_pcall_ignore unknown error: "@,
        log,
        status,
        out is None,
    ) && (out matches Some(r) ==> r == resume_outcome(status))
}

/// The conversation of `coroutine_resume_pcall_ignore`.
pub struct ResumePcallIgnore {
    narg: i32,
    inner: Guarded,
}

impl ResumePcallIgnore {
    pub closed spec fn checked(&self) -> bool {
        self.inner.checked()
    }

    pub closed spec fn narg(&self) -> i32 {
        self.narg
    }

    /// The exchanges so far.
    pub closed spec fn log(&self) -> Seq<Exchange> {
        self.inner.log()
    }

    /// The call awaiting its reply.
    pub closed spec fn pending(&self) -> Op {
        self.inner.pending()
    }

    /// A bound on the replies still to come.
    pub closed spec fn fuel(&self) -> nat {
        self.inner.fuel()
    }

    /// The conversation is under way: its log begins a complete conversation and
    /// the pending call is the next one in it.
    pub closed spec fn wf(&self) -> bool {
        &&& self.inner.wf()
        &&& self.inner.first() == Op::Resume(self.narg)
        &&& self.inner.yields()
        &&& self.inner.text() == "[gmod-rs] coroutine_resume_pcall_ignore unknown error: "@
    }

    /// Starts `coroutine_resume_pcall_ignore(narg)`; returns the first call.
    pub fn start(checked: bool, narg: i32) -> (r: (ResumePcallIgnore, ApiCall))
        ensures
            r.0.wf(),
            r.0.checked() == checked,
            r.0.narg() == narg,
            r.0.log() == Seq::<Exchange>::empty(),
            r.0.pending() == r.1@,
            r.1@ == Op::Resume(narg),
    {
        let (inner, first) = Guarded::start(
            checked,
            ApiCall::Resume(narg),
            true,
            String::from_str("[gmod-rs] coroutine_resume_pcall_ignore unknown error: "),
        );
        (ResumePcallIgnore { narg, inner }, first)
    }

    /// Hands in the reply to the pending call; returns what comes next.
    pub fn resume(&mut self, reply: Reply) -> (step: Step<Result<i32, ()>>)
        requires
            old(self).wf(),
        ensures
            final(self).checked() == old(self).checked(),
            final(self).narg() == old(self).narg(),
            match step {
                Step::Call(c) => {
                    &&& final(self).wf()
                    &&& final(self).pending() == c@
                    &&& final(self).log() == answered(old(self).log(), old(self).pending(), reply@)
                    &&& final(self).fuel() < old(self).fuel()
                },
                Step::Done(r) => resume_pcall_ignore_conversation(
                    old(self).checked(),
                    old(self).narg(),
                    answered(old(self).log(), old(self).pending(), reply@),
                    Some(r),
                ),
                Step::Panic(f) => f == Failure::ErrorNotString && resume_pcall_ignore_conversation(
                    old(self).checked(),
                    old(self).narg(),
                    answered(old(self).log(), old(self).pending(), reply@),
                    None,
                ),
                Step::Fault => !fits(old(self).pending(), reply@),
            },
    {
        match self.inner.resume(reply) {
            Step::Call(c) => Step::Call(c),
            Step::Done(status) => {
                if status == LUA_OK || status == LUA_YIELD {
                    Step::Done(Ok(status))
                } else {
                    Step::Done(Err(()))
                }
            },
            Step::Panic(f) => Step::Panic(f),
            Step::Fault => Step::Fault,
        }
    }
}

/// The conversation of `error(message)` up to `lua_error`, which does not
/// return: the message pushed.
pub open spec fn raise_conversation(message: Seq<char>, log: Seq<Exchange>) -> bool {
    log == seq![Exchange { call: Op::PushString(message), answer: Answer::Nothing }]
}

/// The conversation of `error`: push the message, then `lua_error`.
pub struct Raise {
    message: Ghost<Seq<char>>,
    tape: Tape,
}

impl Raise {
    pub closed spec fn message(&self) -> Seq<char> {
        self.message@
    }

    /// The exchanges so far.
    pub closed spec fn log(&self) -> Seq<Exchange> {
        self.tape.log()
    }

    /// The call awaiting its reply.
    pub closed spec fn pending(&self) -> Op {
        self.tape.pending()
    }

    /// The conversation is under way: its log begins a complete conversation and
    /// the pending call is the next one in it.
    pub closed spec fn wf(&self) -> bool {
        &&& self.tape.log().len() == 0
        &&& self.tape.pending() == Op::PushString(self.message@)
    }

    /// Starts raising `message` as a Lua error; returns the first call.
    pub fn start(message: String) -> (r: (Raise, ApiCall))
        ensures
            r.0.wf(),
            r.0.message() == message@,
            r.0.log() == Seq::<Exchange>::empty(),
            r.0.pending() == r.1@,
            r.1@ == Op::PushString(message@),
    {
        let ghost m = message@;
        let first = ApiCall::PushString(message);
        let tape = Tape::new(&first);
        (Raise { message: Ghost(m), tape }, first)
    }

    /// Hands in the reply to the pending call; the next call is `lua_error`,
    /// after which nothing more is asked.
    pub fn resume(&mut self, reply: Reply) -> (step: Step<()>)
        requires
            old(self).wf(),
        ensures
            match step {
                Step::Call(c) => c@ == Op::Error && raise_conversation(
                    old(self).message(),
                    answered(old(self).log(), old(self).pending(), reply@),
                ),
                Step::Done(_) => false,
                Step::Panic(_) => false,
                Step::Fault => !fits(old(self).pending(), reply@),
            },
    {
        match reply {
            Reply::Nothing => {
                self.tape.record(&reply);
                assert(self.tape.log() =~= seq![
                    Exchange { call: Op::PushString(self.message@), answer: Answer::Nothing },
                ]);
                Step::Call(ApiCall::Error)
            },
            _ => Step::Fault,
        }
    }
}

/// The message that `coroutine_resume_call` raises for a failed resume with
/// status `status`, the error value reading as `o`.
pub open spec fn resume_call_message(status: i32, o: Option<Seq<u8>>) -> Seq<char> {
    if status == LUA_ERRRUN {
        match o {
            Some(b) => utf8_lossy(b),
            None => "Unknown error"@,
        }
    } else if status == LUA_ERRMEM {
        "Out of memory"@
    } else {
        "Unknown internal Lua error"@
    }
}

/// The complete conversation of `coroutine_resume_call(narg)` when it returns:
/// the coroutine finished.
pub open spec fn resume_call_returns(narg: i32, log: Seq<Exchange>) -> bool {
    log == seq![Exchange { call: Op::Resume(narg), answer: Answer::Int(LUA_OK) }]
}

/// The conversation of `coroutine_resume_call(narg)` up to the `lua_error` that
/// it ends with when the resume did not finish: for a runtime error the error
/// value below the top is read; the message is pushed.
pub open spec fn resume_call_raises(narg: i32, log: Seq<Exchange>) -> bool {
    &&& log.len() >= 2
    &&& log[0].call == Op::Resume(narg)
    &&& log[0].answer matches Answer::Int(status) && status != LUA_OK && if status == LUA_ERRRUN {
        &&& log.len() == 3
        &&& log[1].call == Op::ToLString(-2i32)
        &&& log[1].answer matches Answer::Text(o) && log[2] == Exchange {
            call: Op::PushString(resume_call_message(status, o)),
            answer: Answer::Nothing,
        }
    } else {
        &&& log.len() == 2
        &&& log[1] == Exchange {
            call: Op::PushString(resume_call_message(status, None)),
            answer: Answer::Nothing,
        }
    }
}

/// The conversation of `coroutine_resume_call`.
pub struct ResumeCall {
    narg: i32,
    stage: u8,
    status: i32,
    message: Option<Vec<u8>>,
    tape: Tape,
}

impl ResumeCall {
    pub closed spec fn narg(&self) -> i32 {
        self.narg
    }

    /// The exchanges so far.
    pub closed spec fn log(&self) -> Seq<Exchange> {
        self.tape.log()
    }

    /// The call awaiting its reply.
    pub closed spec fn pending(&self) -> Op {
        self.tape.pending()
    }

    /// A bound on the replies still to come.
    pub closed spec fn fuel(&self) -> nat {
        (3 - self.stage) as nat
    }

    /// The conversation is under way: its log begins a complete conversation and
    /// the pending call is the next one in it.
    pub closed spec fn wf(&self) -> bool {
        let log = self.tape.log();
        let first = Exchange { call: Op::Resume(self.narg), answer: Answer::Int(self.status) };
        &&& self.stage < 3
        &&& self.stage == 0 ==> log.len() == 0 && self.tape.pending() == Op::Resume(self.narg)
        &&& self.stage == 1 ==> log == seq![first] && self.status == LUA_ERRRUN
            && self.tape.pending() == Op::ToLString(-2i32)
        &&& self.stage == 2 ==> {
            &&& self.status != LUA_OK
            &&& if self.status == LUA_ERRRUN {
                log == seq![
                    first,
                    Exchange { call: Op::ToLString(-2i32), answer: Answer::Text(bytes_view(&self.message)) },
                ]
            } else {
                log == seq![first] && self.message is None
            }
            &&& self.tape.pending() == Op::PushString(
                resume_call_message(self.status, bytes_view(&self.message)),
            )
        }
    }

    /// Starts `coroutine_resume_call(narg)`; returns the first call.
    pub fn start(narg: i32) -> (r: (ResumeCall, ApiCall))
        ensures
            r.0.wf(),
            r.0.narg() == narg,
            r.0.log() == Seq::<Exchange>::empty(),
            r.0.pending() == r.1@,
            r.1@ == Op::Resume(narg),
    {
        let first = ApiCall::Resume(narg);
        let tape = Tape::new(&first);
        (ResumeCall { narg, stage: 0, status: 0, message: None, tape }, first)
    }

    /// Hands in the reply to the pending call; returns what comes next. A
    /// `lua_error` call ends the conversation.
    pub fn resume(&mut self, reply: Reply) -> (step: Step<()>)
        requires
            old(self).wf(),
        ensures
            final(self).narg() == old(self).narg(),
            match step {
                Step::Call(c) => if c@ == Op::Error {
                    resume_call_raises(
                        old(self).narg(),
                        answered(old(self).log(), old(self).pending(), reply@),
                    )
                } else {
                    &&& final(self).wf()
                    &&& final(self).pending() == c@
                    &&& final(self).log() == answered(old(self).log(), old(self).pending(), reply@)
                    &&& final(self).fuel() < old(self).fuel()
                },
                Step::Done(_) => resume_call_returns(
                    old(self).narg(),
                    answered(old(self).log(), old(self).pending(), reply@),
                ),
                Step::Panic(_) => false,
                Step::Fault => !fits(old(self).pending(), reply@),
            },
    {
        if self.stage == 0 {
            match reply {
                Reply::Int(status) => {
                    self.tape.record(&reply);
                    self.status = status;
                    self.message = None;
                    assert(self.tape.log() =~= seq![
                        Exchange { call: Op::Resume(self.narg), answer: Answer::Int(status) },
                    ]);
                    if status == LUA_OK {
                        return Step::Done(());
                    }
                    let next = if status == LUA_ERRRUN {
                        self.stage = 1;
                        ApiCall::ToLString(-2)
                    } else {
                        self.stage = 2;
                        let message = if status == LUA_ERRMEM {
                            String::from_str("Out of memory")
                        } else {
                            String::from_str("Unknown internal Lua error")
                        };
                        ApiCall::PushString(message)
                    };
                    self.tape.expect(&next);
                    Step::Call(next)
                },
                _ => Step::Fault,
            }
        } else if self.stage == 1 {
            self.tape.record(&reply);
            match reply {
                Reply::Text(o) => {
                    let message = match decode_lossy_opt(&o) {
                        Some(m) => m,
                        None => String::from_str("Unknown error"),
                    };
                    self.message = o;
                    self.stage = 2;
                    assert(self.tape.log() =~= seq![
                        Exchange { call: Op::Resume(self.narg), answer: Answer::Int(self.status) },
                        Exchange {
                            call: Op::ToLString(-2i32),
                            answer: Answer::Text(bytes_view(&self.message)),
                        },
                    ]);
                    let next = ApiCall::PushString(message);
                    self.tape.expect(&next);
                    Step::Call(next)
                },
                _ => Step::Fault,
            }
        } else {
            match reply {
                Reply::Nothing => {
                    self.tape.record(&reply);
                    Step::Call(ApiCall::Error)
                },
                _ => Step::Fault,
            }
        }
    }
}

} // verus!
