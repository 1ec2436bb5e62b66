use vstd::prelude::*;
use crate::codec::{
    decode, decodes, encodable, encode_arg, encodes, reader_for_tag, reader_of_tag, ForeignValue,
    Reader, Reading, TAG_NULL,
};
use crate::value::{Any, Error, ErrorKind};

verus! {

/// Where a call stands in its protocol with the runtime.
#[derive(Debug, Clone, Copy, PartialEq, Eq, Structural)]
pub enum Phase {
    /// Waiting for the callable to be resolved by name.
    Resolving,
    /// Waiting for the next argument handle to be created.
    Creating,
    /// Waiting for the invocation to return.
    Invoking,
    /// Waiting for the result handle's type tag.
    ReadingTag,
    /// Waiting for the result's payload from a typed accessor.
    ReadingValue,
    /// Waiting for the result handle to be released.
    ReleasingResult,
    /// Waiting for the next argument handle to be released.
    ReleasingArgs,
    /// The call has produced its outcome.
    Done,
}

/// What the runtime answered to the last action.
#[derive(Debug, PartialEq)]
pub enum Event {
    /// The callable's handle, or `None` for the null sentinel.
    Resolved(Option<u64>),
    /// The handle of the argument value just created.
    Created(u64),
    /// The result handle, or `None` for the null sentinel.
    Returned(Option<u64>),
    /// The type tag of the result handle.
    TagRead(i32),
    /// What the typed accessor read from the result handle.
    ValueRead(Reading),
    /// The handle named by the last action was released.
    Released,
}

/// What the runtime is to do next.
#[derive(Debug, PartialEq)]
pub enum Action {
    /// Resolve a callable by this name.
    Resolve(String),
    /// Create a value handle from this request.
    Create(ForeignValue),
    /// Invoke the callable with the argument handles, in order.
    Invoke(u64, Vec<u64>),
    /// Read the type tag of this handle.
    ReadTag(u64),
    /// Read this handle through the accessor.
    Read(u64, Reader),
    /// Release this handle.
    Release(u64),
    /// Nothing more to do: this is the call's outcome.
    Finish(Result<Any, Error>),
}

/// One invocation of a named function of the runtime, as a state machine.
///
/// Every handle that the runtime creates for the call (one per argument, and
/// at most one result) is released exactly once before the call finishes.
pub struct Call {
    pub phase: Phase,
    /// The resolved callable.
    pub callable: u64,
    /// Whether every argument has an encoding.
    pub supported: bool,
    /// The number of arguments.
    pub n_args: usize,
    /// Constructor requests for the arguments whose handles are not created yet.
    pub pending: Vec<ForeignValue>,
    /// The argument handles created so far, in argument order.
    pub handles: Vec<u64>,
    /// The result handle, once the invocation returned one.
    pub result: Option<u64>,
    /// The decoded result.
    pub value: Any,
    /// How many argument handles have been released.
    pub freed: usize,
    /// The error the call ended with, if any.
    pub error: Option<Error>,
    /// The handles released so far, in order.
    pub released: Ghost<Seq<u64>>,
}

/// The result handle as a sequence of none or one.
pub open spec fn result_seq(result: Option<u64>) -> Seq<u64> {
    match result {
        Some(h) => seq![h],
        None => Seq::empty(),
    }
}

impl Call {
    /// Every handle that the runtime created for this call so far: the result
    /// handle first, then the argument handles.
    pub open spec fn allocated(&self) -> Seq<u64> {
        result_seq(self.result) + self.handles@
    }

    /// The call's state is consistent with its phase: which handles exist,
    /// and which of them have been released so far.
    pub open spec fn wf(&self) -> bool {
        &&& self.freed <= self.handles@.len()
        &&& (!self.supported ==> self.pending@.len() == 0)
        &&& (self.phase != Phase::Done ==> self.error is None)
        &&& match self.phase {
            Phase::Resolving => {
                &&& self.supported ==> self.pending@.len() == self.n_args
                &&& self.handles@.len() == 0
                &&& self.result is None
                &&& self.released@.len() == 0
            },
            Phase::Creating => {
                &&& self.supported
                &&& self.handles@.len() + self.pending@.len() + 1 == self.n_args
                &&& self.result is None
                &&& self.freed == 0
                &&& self.released@.len() == 0
            },
            Phase::Invoking => {
                &&& self.supported
                &&& self.pending@.len() == 0
                &&& self.handles@.len() == self.n_args
                &&& self.result is None
                &&& self.freed == 0
                &&& self.released@.len() == 0
            },
            Phase::ReadingTag | Phase::ReadingValue | Phase::ReleasingResult => {
                &&& self.supported
                &&& self.pending@.len() == 0
                &&& self.handles@.len() == self.n_args
                &&& self.result is Some
                &&& self.freed == 0
                &&& self.released@.len() == 0
            },
            Phase::ReleasingArgs => {
                &&& self.supported
                &&& self.pending@.len() == 0
                &&& self.handles@.len() == self.n_args
                &&& self.freed < self.handles@.len()
                &&& self.released@ == result_seq(self.result) + self.handles@.subrange(
                    0,
                    self.freed as int,
                )
            },
            Phase::Done => {
                &&& self.released@ == self.allocated()
                &&& (self.error is None ==> self.supported && self.handles@.len() == self.n_args)
                &&& (self.error is Some ==> self.handles@.len() == 0 && self.result is None)
            },
        }
    }

    /// `e` is an answer that the call waits for in its present phase.
    pub open spec fn accepts(&self, e: Event) -> bool {
        match (self.phase, e) {
            (Phase::Resolving, Event::Resolved(_)) => true,
            (Phase::Creating, Event::Created(_)) => true,
            (Phase::Invoking, Event::Returned(_)) => true,
            (Phase::ReadingTag, Event::TagRead(_)) => true,
            (Phase::ReadingValue, Event::ValueRead(_)) => true,
            (Phase::ReleasingResult, Event::Released) => true,
            (Phase::ReleasingArgs, Event::Released) => true,
            _ => false,
        }
    }

    /// After the invocation, or after the result handle is released: release
    /// the first argument handle, or finish with `v` where there is none.
    pub open spec fn after_result(s: Call, t: Call, a: Action, v: Any) -> bool {
        if s.handles@.len() == 0 {
            &&& t.phase == Phase::Done
            &&& a == Action::Finish(Ok(v))
        } else {
            &&& t.phase == Phase::ReleasingArgs
            &&& t.value == v
            &&& a == Action::Release(s.handles@[0])
        }
    }

    /// Ask for the next argument handle, or invoke once all are created.
    pub open spec fn next_argument(s: Call, t: Call, a: Action) -> bool {
        if s.pending@.len() == 0 {
            &&& t.phase == Phase::Invoking
            &&& t.pending@ == s.pending@
            &&& a matches Action::Invoke(c, hs) && c == t.callable && hs@ == t.handles@
        } else {
            &&& t.phase == Phase::Creating
            &&& t.pending@ == s.pending@.drop_first()
            &&& a == Action::Create(s.pending@[0])
        }
    }

    /// The call in state `s`, told `e`, moves to state `t` and asks for `a`.
    pub open spec fn transition(s: Call, e: Event, t: Call, a: Action) -> bool {
        &&& t.n_args == s.n_args
        &&& t.supported == s.supported
        &&& match (s.phase, e) {
            (Phase::Resolving, Event::Resolved(None)) => {
                &&& t.phase == Phase::Done
                &&& t.error == Some(Error(ErrorKind::FunctionNotFound))
                &&& t.handles@.len() == 0
                &&& t.result is None
                &&& a == Action::Finish(Err(Error(ErrorKind::FunctionNotFound)))
            },
            (Phase::Resolving, Event::Resolved(Some(f))) => if !s.supported {
                &&& t.phase == Phase::Done
                &&& t.error == Some(Error(ErrorKind::UnsupportedArgumentType))
                &&& t.handles@.len() == 0
                &&& t.result is None
                &&& a == Action::Finish(Err(Error(ErrorKind::UnsupportedArgumentType)))
            } else {
                &&& t.callable == f
                &&& t.handles@ == s.handles@
                &&& Call::next_argument(s, t, a)
            },
            (Phase::Creating, Event::Created(h)) => {
                &&& t.callable == s.callable
                &&& t.handles@ == s.handles@.push(h)
                &&& Call::next_argument(s, t, a)
            },
            (Phase::Invoking, Event::Returned(None)) => {
                &&& t.handles@ == s.handles@
                &&& t.result is None
                &&& t.error is None
                &&& Call::after_result(s, t, a, Any::Null)
            },
            (Phase::Invoking, Event::Returned(Some(h))) => {
                &&& t.phase == Phase::ReadingTag
                &&& t.handles@ == s.handles@
                &&& t.result == Some(h)
                &&& a == Action::ReadTag(h)
            },
            (Phase::ReadingTag, Event::TagRead(tag)) => {
                &&& t.handles@ == s.handles@
                &&& t.result == s.result
                &&& match reader_of_tag(tag) {
                    Some(rd) => {
                        &&& t.phase == Phase::ReadingValue
                        &&& a == Action::Read(s.result->Some_0, rd)
                    },
                    None => {
                        &&& t.phase == Phase::ReleasingResult
                        &&& t.value is Null
                        &&& a == Action::Release(s.result->Some_0)
                    },
                }
            },
            (Phase::ReadingValue, Event::ValueRead(r)) => {
                &&& t.phase == Phase::ReleasingResult
                &&& t.handles@ == s.handles@
                &&& t.result == s.result
                &&& decodes(r, t.value)
                &&& a == Action::Release(s.result->Some_0)
            },
            (Phase::ReleasingResult, Event::Released) => {
                &&& t.handles@ == s.handles@
                &&& t.result == s.result
                &&& t.error is None
                &&& Call::after_result(s, t, a, s.value)
            },
            (Phase::ReleasingArgs, Event::Released) => {
                &&& t.handles@ == s.handles@
                &&& t.result == s.result
                &&& t.freed == s.freed + 1
                &&& if t.freed == s.handles@.len() {
                    &&& t.phase == Phase::Done
                    &&& t.error is None
                    &&& a == Action::Finish(Ok(s.value))
                } else {
                    &&& t.phase == Phase::ReleasingArgs
                    &&& t.value == s.value
                    &&& a == Action::Release(s.handles@[t.freed as int])
                }
            },
            _ => false,
        }
    }

    /// Whether the call waits for `e` in its present phase.
    pub fn expects(&self, e: &Event) -> (r: bool)
        ensures
            r == self.accepts(*e),
    {
        match (self.phase, e) {
            (Phase::Resolving, Event::Resolved(_)) => true,
            (Phase::Creating, Event::Created(_)) => true,
            (Phase::Invoking, Event::Returned(_)) => true,
            (Phase::ReadingTag, Event::TagRead(_)) => true,
            (Phase::ReadingValue, Event::ValueRead(_)) => true,
            (Phase::ReleasingResult, Event::Released) => true,
            (Phase::ReleasingArgs, Event::Released) => true,
            _ => false,
        }
    }

    fn take_value(&mut self) -> (v: Any)
        ensures
            v == old(self).value,
            final(self).value is Null,
            final(self).phase == old(self).phase,
            final(self).callable == old(self).callable,
            final(self).supported == old(self).supported,
            final(self).n_args == old(self).n_args,
            final(self).pending == old(self).pending,
            final(self).handles == old(self).handles,
            final(self).result == old(self).result,
            final(self).freed == old(self).freed,
            final(self).error == old(self).error,
            final(self).released == old(self).released,
    {
        let mut v = Any::Null;
        std::mem::swap(&mut v, &mut self.value);
        v
    }

    fn copy_handles(&self) -> (r: Vec<u64>)
        ensures
            r@ == self.handles@,
    {
        let mut r: Vec<u64> = Vec::new();
        let mut i: usize = 0;
        while i < self.handles.len()
            invariant
                i <= self.handles@.len(),
                r@ == self.handles@.subrange(0, i as int),
            decreases self.handles@.len() - i,
        {
            r.push(self.handles[i]);
            i = i + 1;
        }
        r
    }

    /// Creates the next argument handle, or invokes the callable.
    fn next_argument_action(&mut self) -> (a: Action)
        requires
            old(self).supported,
        ensures
            Call::next_argument(*old(self), *final(self), a),
            final(self).phase != Phase::Creating ==> final(self).pending@.len() == 0,
            final(self).callable == old(self).callable,
            final(self).supported == old(self).supported,
            final(self).n_args == old(self).n_args,
            final(self).handles == old(self).handles,
            final(self).result == old(self).result,
            final(self).value == old(self).value,
            final(self).freed == old(self).freed,
            final(self).error == old(self).error,
            final(self).released == old(self).released,
    {
        if self.pending.len() == 0 {
            self.phase = Phase::Invoking;
            Action::Invoke(self.callable, self.copy_handles())
        } else {
            let f = self.pending.remove(0);
            self.phase = Phase::Creating;
            Action::Create(f)
        }
    }

    /// Releases the first argument handle, or finishes where there is none.
    fn after_result_action(&mut self) -> (a: Action)
        ensures
            Call::after_result(*old(self), *final(self), a, old(self).value),
            final(self).callable == old(self).callable,
            final(self).supported == old(self).supported,
            final(self).n_args == old(self).n_args,
            final(self).pending == old(self).pending,
            final(self).handles == old(self).handles,
            final(self).result == old(self).result,
            final(self).freed == old(self).freed,
            final(self).error == old(self).error,
            final(self).released == old(self).released,
    {
        if self.handles.len() == 0 {
            self.phase = Phase::Done;
            Action::Finish(Ok(self.take_value()))
        } else {
            self.phase = Phase::ReleasingArgs;
            Action::Release(self.handles[0])
        }
    }

    /// Takes the runtime's answer to the last action and returns the next one.
    pub fn step(&mut self, e: Event) -> (a: Action)
        requires
            old(self).wf(),
            old(self).accepts(e),
        ensures
            final(self).wf(),
            Call::transition(*old(self), e, *final(self), a),
    {
        match e {
            Event::Resolved(None) => {
                self.phase = Phase::Done;
                self.error = Some(Error(ErrorKind::FunctionNotFound));
                assert(self.released@ =~= self.allocated());
                Action::Finish(Err(Error(ErrorKind::FunctionNotFound)))
            },
            Event::Resolved(Some(f)) => {
                if !self.supported {
                    self.phase = Phase::Done;
                    self.error = Some(Error(ErrorKind::UnsupportedArgumentType));
                    assert(self.released@ =~= self.allocated());
                    Action::Finish(Err(Error(ErrorKind::UnsupportedArgumentType)))
                } else {
                    self.callable = f;
                    self.next_argument_action()
                }
            },
            Event::Created(h) => {
                self.handles.push(h);
                self.next_argument_action()
            },
            Event::Returned(None) => {
                self.value = Any::Null;
                assert(self.released@ =~= result_seq(self.result) + self.handles@.subrange(0, 0));
                assert(self.handles@.len() == 0 ==> self.allocated() =~= self.released@);
                self.after_result_action()
            },
            Event::Returned(Some(h)) => {
                self.result = Some(h);
                self.phase = Phase::ReadingTag;
                Action::ReadTag(h)
            },
            Event::TagRead(tag) => {
                let h = self.result.unwrap();
                match reader_for_tag(tag) {
                    Some(rd) => {
                        self.phase = Phase::ReadingValue;
                        Action::Read(h, rd)
                    },
                    None => {
                        self.value = Any::Null;
                        self.phase = Phase::ReleasingResult;
                        Action::Release(h)
                    },
                }
            },
            Event::ValueRead(r) => {
                let h = self.result.unwrap();
                self.value = decode(r);
                self.phase = Phase::ReleasingResult;
                Action::Release(h)
            },
            Event::Released => {
                if self.phase == Phase::ReleasingResult {
                    let h = self.result.unwrap();
                    self.released = Ghost(self.released@.push(h));
                    assert(self.released@ =~= result_seq(self.result) + self.handles@.subrange(0, 0));
                    assert(self.handles@.len() == 0 ==> self.allocated() =~= self.released@);
                    self.after_result_action()
                } else {
                    let h = self.handles[self.freed];
                    self.released = Ghost(self.released@.push(h));
                    self.freed = self.freed + 1;
                    assert(self.handles@.subrange(0, self.freed as int) =~= self.handles@.subrange(
                        0,
                        self.freed - 1,
                    ).push(h));
                    assert(self.handles@.subrange(0, self.handles@.len() as int) =~= self.handles@);
                    if self.freed == self.handles.len() {
                        self.phase = Phase::Done;
                        Action::Finish(Ok(self.take_value()))
                    } else {
                        Action::Release(self.handles[self.freed])
                    }
                }
            },
        }
    }

    /// Starts a call of `name` with `args`. Nothing is created in the runtime
    /// until the callable is resolved; the first action asks for that.
    pub fn new(name: String, args: &[Any]) -> (r: (Call, Action))
        ensures
            r.0.wf(),
            r.0.phase == Phase::Resolving,
            r.0.n_args == args@.len(),
            r.0.supported <==> forall|i: int| 0 <= i < args@.len() ==> encodable(#[trigger] args@[i]),
            r.0.supported ==> forall|i: int|
                0 <= i < args@.len() ==> encodes(args@[i], #[trigger] r.0.pending@[i]),
            r.0.error is None,
            r.1 == Action::Resolve(name),
    {
        let mut pending: Vec<ForeignValue> = Vec::new();
        let mut supported = true;
        let mut i: usize = 0;
        while i < args.len()
            invariant
                i <= args@.len(),
                supported ==> pending@.len() == i,
                supported ==> forall|j: int| 0 <= j < i ==> encodes(args@[j], #[trigger] pending@[j]),
                supported <==> forall|j: int| 0 <= j < i ==> encodable(#[trigger] args@[j]),
            decreases args@.len() - i,
        {
            match encode_arg(&args[i]) {
                Some(f) => {
                    pending.push(f);
                },
                None => {
                    supported = false;
                },
            }
            i = i + 1;
        }
        if !supported {
            pending = Vec::new();
        }
        let call = Call {
            phase: Phase::Resolving,
            callable: 0,
            supported,
            n_args: args.len(),
            pending,
            handles: Vec::new(),
            result: None,
            value: Any::Null,
            freed: 0,
            error: None,
            released: Ghost(Seq::empty()),
        };
        (call, Action::Resolve(name))
    }
}

/// A finished call has released every handle that the runtime created for
/// it, each exactly once: the result handle, if any, and then each argument
/// handle in argument order. A call that succeeded created one argument
/// handle per argument; one that failed created none.
pub proof fn lemma_finished_call_balanced(c: Call)
    requires
        c.wf(),
        c.phase == Phase::Done,
    ensures
        c.released@ == c.allocated(),
        c.released@.len() == c.allocated().len(),
        c.error is None ==> c.handles@.len() == c.n_args,
        c.error is Some ==> c.allocated().len() == 0,
{
}

/// A call whose callable cannot be resolved fails with `FunctionNotFound`
/// and has had the runtime create no handle.
pub proof fn lemma_not_found_allocates_nothing(s: Call, t: Call, a: Action)
    requires
        s.wf(),
        s.phase == Phase::Resolving,
        Call::transition(s, Event::Resolved(None), t, a),
    ensures
        a == Action::Finish(Err(Error(ErrorKind::FunctionNotFound))),
        t.phase == Phase::Done,
        t.allocated().len() == 0,
{
}

/// A result whose type tag has no conversion (the void tag, a kind without
/// one, or a tag outside the enumeration) decodes to `Null`, and the call
/// goes on to release the result handle.
pub proof fn lemma_unrecognized_tag_yields_null(s: Call, tag: i32, t: Call, a: Action)
    requires
        s.wf(),
        s.phase == Phase::ReadingTag,
        reader_of_tag(tag) is None,
        Call::transition(s, Event::TagRead(tag), t, a),
    ensures
        t.value is Null,
        t.phase == Phase::ReleasingResult,
        a == Action::Release(s.result->Some_0),
        t.result == s.result,
{
}

/// The void tag yields `Null`, and the result handle is released next.
pub proof fn lemma_void_tag_yields_null(s: Call, t: Call, a: Action)
    requires
        s.wf(),
        s.phase == Phase::ReadingTag,
        Call::transition(s, Event::TagRead(TAG_NULL), t, a),
    ensures
        t.value is Null,
        a == Action::Release(s.result->Some_0),
{
}

} // verus!
