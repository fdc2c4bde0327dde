//! The platform clipboards and the choice between them.

use vstd::prelude::*;

use crate::content::{ClipboardChange, ClipboardContent, ContentView};
use crate::error::{ClipboardCreationError, ClipboardError};

verus! {

/// Platform clipboard abstraction.
///
/// Implementations MUST suppress self-fires that result from calling `set()`.
/// None of the methods waits: changes are buffered by the implementation until
/// they are asked for.
///
/// The three relations say what an implementation does, in its own terms. They
/// claim nothing by themselves; they let the code that uses a backend say what
/// it hands to it. An implementation that leaves them out may do anything.
pub trait Clipboard {
    /// Whether a call of `next_event` may lead from this state to `after` and
    /// return `event`.
    open spec fn next_event_step(&self, after: &Self, event: Option<ClipboardChange>) -> bool {
        true
    }

    /// Whether a call of `set` with `content` may lead from this state to
    /// `after` and return `result`.
    open spec fn set_step(
        &self,
        content: ContentView,
        after: &Self,
        result: Result<(), ClipboardError>,
    ) -> bool {
        true
    }

    /// Whether a call of `terminate` may lead from this state to `after` and
    /// return `result`.
    open spec fn terminate_step(&self, after: &Self, result: Result<(), ClipboardError>) -> bool {
        true
    }

    /// The next buffered change, if there is one.
    fn next_event(&mut self) -> (event: Option<ClipboardChange>)
        ensures
            old(self).next_event_step(final(self), event),
    ;

    /// Puts `content` on the clipboard.
    fn set(&mut self, content: ClipboardContent) -> (result: Result<(), ClipboardError>)
        ensures
            old(self).set_step(content@, final(self), result),
    ;

    /// Shuts the backend down.
    fn terminate(&mut self) -> (result: Result<(), ClipboardError>)
        ensures
            old(self).terminate_step(final(self), result),
    ;
}

/// A clipboard that never changes and takes every content without a trace. It
/// stands in where a platform has no clipboard that can be shared.
#[derive(Debug)]
pub struct DummyClipboard {}

impl DummyClipboard {
    /// Opening it cannot fail.
    pub fn new() -> (result: Result<DummyClipboard, ClipboardCreationError>)
        ensures
            result == Ok::<DummyClipboard, ClipboardCreationError>(DummyClipboard {  }),
    {
        Ok(DummyClipboard {  })
    }
}

impl Clipboard for DummyClipboard {
    open spec fn next_event_step(&self, after: &Self, event: Option<ClipboardChange>) -> bool {
        after == self && event is None
    }

    open spec fn set_step(
        &self,
        content: ContentView,
        after: &Self,
        result: Result<(), ClipboardError>,
    ) -> bool {
        after == self && result is Ok
    }

    open spec fn terminate_step(&self, after: &Self, result: Result<(), ClipboardError>) -> bool {
        after == self && result is Ok
    }

    fn next_event(&mut self) -> Option<ClipboardChange> {
        None
    }

    fn set(&mut self, content: ClipboardContent) -> Result<(), ClipboardError> {
        Ok(())
    }

    fn terminate(&mut self) -> Result<(), ClipboardError> {
        Ok(())
    }
}

/// The clipboards that there are.
#[derive(Debug, Clone, Copy, PartialEq, Eq, Structural)]
pub enum Backend {
    Wayland,
    MacOs,
    /// Not implemented yet: changes nothing and observes nothing.
    Windows,
    Dummy,
}

/// Which backends a build for some target has, besides the dummy.
#[derive(Debug, Clone, Copy, PartialEq, Eq, Structural)]
pub struct TargetBackends {
    pub wayland: bool,
    pub macos: bool,
    pub windows: bool,
}

impl TargetBackends {
    /// The backends that a target has.
    pub open spec fn of(macos: bool, unix: bool, windows: bool) -> TargetBackends {
        TargetBackends { wayland: unix && !macos && !windows, macos, windows }
    }

    /// The backends of a target, from what is known of its operating system:
    /// Wayland is for every Unix that is neither macOS nor Windows.
    pub fn of_target(macos: bool, unix: bool, windows: bool) -> (targets: TargetBackends)
        ensures
            targets == (TargetBackends { wayland: unix && !macos && !windows, macos, windows }),
            targets == TargetBackends::of(macos, unix, windows),
    {
        TargetBackends { wayland: unix && !macos && !windows, macos, windows }
    }

    /// The backends of this target in the order in which they are tried. The
    /// dummy is always there, and always last.
    pub open spec fn order(self) -> Seq<Backend> {
        (if self.wayland {
            seq![Backend::Wayland]
        } else {
            Seq::empty()
        }) + (if self.macos {
            seq![Backend::MacOs]
        } else {
            Seq::empty()
        }) + (if self.windows {
            seq![Backend::Windows]
        } else {
            Seq::empty()
        }) + seq![Backend::Dummy]
    }

    /// The backends of this target in the order in which they are tried.
    pub fn candidates(&self) -> (backends: Vec<Backend>)
        ensures
            backends@ == self.order(),
    {
        let mut backends: Vec<Backend> = Vec::new();
        if self.wayland {
            backends.push(Backend::Wayland);
        }
        if self.macos {
            backends.push(Backend::MacOs);
        }
        if self.windows {
            backends.push(Backend::Windows);
        }
        backends.push(Backend::Dummy);
        assert(backends@ =~= self.order());
        backends
    }
}

/// The clipboard behind a [`LanMouseClipboard`].
#[derive(Debug)]
pub enum BackendHandle<C> {
    /// A clipboard that the platform provides.
    Native(C),
    /// No clipboard.
    Stub(DummyClipboard),
}

/// The clipboard of this machine.
#[derive(Debug)]
pub struct LanMouseClipboard<C> {
    pub backend: Backend,
    pub inner: BackendHandle<C>,
}

/// `result` is what opening `backend` for `peer_id` gives: for the backends
/// that the platform provides it is what `open` returned, with a stub in place
/// of a clipboard that cannot be shared; the others open without it and never
/// fail.
pub open spec fn opened<C, F: Fn(Backend, &str) -> Result<Option<C>, ClipboardCreationError>>(
    open: F,
    backend: Backend,
    peer_id: &str,
    result: Result<LanMouseClipboard<C>, ClipboardCreationError>,
) -> bool {
    match backend {
        Backend::Wayland | Backend::MacOs => match result {
            Ok(clipboard) => {
                &&& clipboard.backend == backend
                &&& call_ensures(
                    open,
                    (backend, peer_id),
                    Ok::<Option<C>, ClipboardCreationError>(
                        match clipboard.inner {
                            BackendHandle::Native(native) => Some(native),
                            BackendHandle::Stub(_) => None,
                        },
                    ),
                )
            },
            Err(e) => call_ensures(
                open,
                (backend, peer_id),
                Err::<Option<C>, ClipboardCreationError>(e),
            ),
        },
        Backend::Windows | Backend::Dummy => result == Ok::<
            LanMouseClipboard<C>,
            ClipboardCreationError,
        >(LanMouseClipboard { backend, inner: BackendHandle::Stub(DummyClipboard {  }) }),
    }
}

/// `result` is the first of `order` that opens: the ones before it failed.
pub open spec fn first_opened<
    C,
    F: Fn(Backend, &str) -> Result<Option<C>, ClipboardCreationError>,
>(
    open: F,
    order: Seq<Backend>,
    peer_id: &str,
    result: Result<LanMouseClipboard<C>, ClipboardCreationError>,
) -> bool {
    &&& result is Ok
    &&& exists|k: int|
        {
            &&& 0 <= k < order.len()
            &&& #[trigger] order[k] == result->Ok_0.backend
            &&& opened(open, order[k], peer_id, result)
            &&& forall|j: int|
                0 <= j < k ==> failed_to_open::<C, F>(open, #[trigger] order[j], peer_id)
        }
}

/// `backend` did not open.
pub open spec fn failed_to_open<
    C,
    F: Fn(Backend, &str) -> Result<Option<C>, ClipboardCreationError>,
>(
    open: F,
    backend: Backend,
    peer_id: &str,
) -> bool {
    exists|e: ClipboardCreationError| #[trigger]
        opened(open, backend, peer_id, Err::<LanMouseClipboard<C>, ClipboardCreationError>(e))
}

impl<C> LanMouseClipboard<C> {
    /// Opens one backend. Where the platform has it, but no clipboard that can
    /// be shared, it is there and does nothing.
    pub fn with_backend<F: Fn(Backend, &str) -> Result<Option<C>, ClipboardCreationError>>(
        backend: Backend,
        peer_id: &str,
        open: &F,
    ) -> (result: Result<LanMouseClipboard<C>, ClipboardCreationError>)
        requires
            call_requires(*open, (backend, peer_id)),
        ensures
            opened(*open, backend, peer_id, result),
    {
        match backend {
            Backend::Wayland | Backend::MacOs => match open(backend, peer_id) {
                Ok(Some(native)) => Ok(
                    LanMouseClipboard { backend, inner: BackendHandle::Native(native) },
                ),
                Ok(None) => Ok(
                    LanMouseClipboard { backend, inner: BackendHandle::Stub(DummyClipboard {  }) },
                ),
                Err(e) => Err(e),
            },
            Backend::Windows | Backend::Dummy => match DummyClipboard::new() {
                Ok(stub) => Ok(LanMouseClipboard { backend, inner: BackendHandle::Stub(stub) }),
                Err(e) => Err(e),
            },
        }
    }

    /// Opens the requested backend, or, where none is requested, the first of
    /// the target's backends that opens.
    ///
    /// `peer_id` should be the local peer's full SHA-256 certificate
    /// fingerprint (colon-hex). The Wayland and macOS backends use it to tag
    /// their own clipboard writes so they can suppress the resulting self-fire
    /// event. `open` opens one of these two; it returns nothing where there is
    /// no clipboard that can be shared.
    pub fn new<F: Fn(Backend, &str) -> Result<Option<C>, ClipboardCreationError>>(
        backend: Option<Backend>,
        peer_id: &str,
        targets: TargetBackends,
        open: F,
    ) -> (result: Result<LanMouseClipboard<C>, ClipboardCreationError>)
        requires
            forall|b: Backend| #[trigger] call_requires(open, (b, peer_id)),
        ensures
            match backend {
                Some(b) => opened(open, b, peer_id, result),
                None => {
                    &&& result is Ok
                    &&& exists|k: int|
                        {
                            &&& 0 <= k < targets.order().len()
                            &&& #[trigger] targets.order()[k] == result->Ok_0.backend
                            &&& opened(open, targets.order()[k], peer_id, result)
                            &&& forall|j: int|
                                0 <= j < k ==> failed_to_open::<C, F>(
                                    open,
                                    #[trigger] targets.order()[j],
                                    peer_id,
                                )
                        }
                },
            },
            backend is None ==> first_opened(open, targets.order(), peer_id, result),
    {
        if let Some(b) = backend {
            return Self::with_backend(b, peer_id, &open);
        }
        let candidates: Vec<Backend> = targets.candidates();
        let mut i: usize = 0;
        while i < candidates.len()
            invariant
                i <= candidates@.len(),
                candidates@ == targets.order(),
                forall|b: Backend| #[trigger] call_requires(open, (b, peer_id)),
                forall|j: int|
                    0 <= j < i ==> failed_to_open::<C, F>(
                        open,
                        #[trigger] targets.order()[j],
                        peer_id,
                    ),
                backend is None,
            decreases candidates@.len() - i,
        {
            match Self::with_backend(candidates[i], peer_id, &open) {
                Ok(clipboard) => {
                    assert(targets.order()[i as int] == clipboard.backend);
                    return Ok(clipboard);
                },
                Err(e) => {
                    assert(opened(
                        open,
                        targets.order()[i as int],
                        peer_id,
                        Err::<LanMouseClipboard<C>, ClipboardCreationError>(e),
                    ));
                },
            }
            i = i + 1;
        }
        assert(targets.order().last() == Backend::Dummy);
        assert(failed_to_open::<C, F>(
            open,
            targets.order()[targets.order().len() - 1],
            peer_id,
        ));
        Err(ClipboardCreationError::NoAvailableBackend)
    }
}

impl<C: Clipboard> Clipboard for LanMouseClipboard<C> {
    open spec fn next_event_step(&self, after: &Self, event: Option<ClipboardChange>) -> bool {
        after.backend == self.backend && match (self.inner, after.inner) {
            (BackendHandle::Native(a), BackendHandle::Native(b)) => a.next_event_step(&b, event),
            (BackendHandle::Stub(a), BackendHandle::Stub(b)) => a.next_event_step(&b, event),
            _ => false,
        }
    }

    open spec fn set_step(
        &self,
        content: ContentView,
        after: &Self,
        result: Result<(), ClipboardError>,
    ) -> bool {
        after.backend == self.backend && match (self.inner, after.inner) {
            (BackendHandle::Native(a), BackendHandle::Native(b)) => a.set_step(content, &b, result),
            (BackendHandle::Stub(a), BackendHandle::Stub(b)) => a.set_step(content, &b, result),
            _ => false,
        }
    }

    open spec fn terminate_step(&self, after: &Self, result: Result<(), ClipboardError>) -> bool {
        after.backend == self.backend && match (self.inner, after.inner) {
            (BackendHandle::Native(a), BackendHandle::Native(b)) => a.terminate_step(&b, result),
            (BackendHandle::Stub(a), BackendHandle::Stub(b)) => a.terminate_step(&b, result),
            _ => false,
        }
    }

    fn next_event(&mut self) -> Option<ClipboardChange> {
        match &mut self.inner {
            BackendHandle::Native(native) => native.next_event(),
            BackendHandle::Stub(stub) => stub.next_event(),
        }
    }

    fn set(&mut self, content: ClipboardContent) -> Result<(), ClipboardError> {
        match &mut self.inner {
            BackendHandle::Native(native) => native.set(content),
            BackendHandle::Stub(stub) => stub.set(content),
        }
    }

    fn terminate(&mut self) -> Result<(), ClipboardError> {
        match &mut self.inner {
            BackendHandle::Native(native) => native.terminate(),
            BackendHandle::Stub(stub) => stub.terminate(),
        }
    }
}

/// A clipboard behind a stub is a no-op: it never reports a change, takes every
/// content without a trace, and shuts down without an error.
pub proof fn law_a_stub_does_nothing<C: Clipboard>(
    clipboard: LanMouseClipboard<C>,
    after: LanMouseClipboard<C>,
    event: Option<ClipboardChange>,
    content: ContentView,
    result: Result<(), ClipboardError>,
)
    requires
        clipboard.inner is Stub,
    ensures
        clipboard.next_event_step(&after, event) ==> after == clipboard && event is None,
        clipboard.set_step(content, &after, result) ==> after == clipboard && result is Ok,
        clipboard.terminate_step(&after, result) ==> after == clipboard && result is Ok,
{
}

/// A target's backends: Wayland, macOS and Windows exactly where the target has
/// them, each once, and the dummy always, behind all others.
pub proof fn law_which_backends_are_tried(targets: TargetBackends)
    ensures
        ({
            let order = targets.order();
            &&& order.contains(Backend::Wayland) == targets.wayland
            &&& order.contains(Backend::MacOs) == targets.macos
            &&& order.contains(Backend::Windows) == targets.windows
            &&& order.no_duplicates()
            &&& order.len() > 0
            &&& order.last() == Backend::Dummy
            &&& targets.wayland ==> order[0] == Backend::Wayland
        }),
{
    let order = targets.order();
    assert forall|b: Backend| #[trigger]
        order.contains(b) == match b {
            Backend::Wayland => targets.wayland,
            Backend::MacOs => targets.macos,
            Backend::Windows => targets.windows,
            Backend::Dummy => true,
        } by {
        let w = if targets.wayland {
            1int
        } else {
            0
        };
        let m = if targets.macos {
            1int
        } else {
            0
        };
        if targets.wayland {
            assert(order[0] == Backend::Wayland);
        }
        if targets.macos {
            assert(order[w] == Backend::MacOs);
        }
        if targets.windows {
            assert(order[w + m] == Backend::Windows);
        }
        assert(order[order.len() - 1] == Backend::Dummy);
    }
}

/// What opening a backend gives is what the platform gave: the very clipboard
/// that it opened, a stub where it has none, its own error where it failed.
/// Backends that the platform does not provide are stubs.
pub proof fn law_what_opening_gives<
    C,
    F: Fn(Backend, &str) -> Result<Option<C>, ClipboardCreationError>,
>(
    open: F,
    backend: Backend,
    peer_id: &str,
    result: Result<LanMouseClipboard<C>, ClipboardCreationError>,
)
    requires
        opened(open, backend, peer_id, result),
    ensures
        result is Ok ==> result->Ok_0.backend == backend,
        backend == Backend::Windows || backend == Backend::Dummy ==> result is Ok
            && result->Ok_0.inner is Stub,
        backend == Backend::Wayland || backend == Backend::MacOs ==> match result {
            Ok(LanMouseClipboard { inner: BackendHandle::Native(native), .. }) => call_ensures(
                open,
                (backend, peer_id),
                Ok::<Option<C>, ClipboardCreationError>(Some(native)),
            ),
            Ok(LanMouseClipboard { inner: BackendHandle::Stub(_), .. }) => call_ensures(
                open,
                (backend, peer_id),
                Ok::<Option<C>, ClipboardCreationError>(None),
            ),
            Err(e) => call_ensures(
                open,
                (backend, peer_id),
                Err::<Option<C>, ClipboardCreationError>(e),
            ),
        },
{
}

/// Whatever is asked of a platform's clipboard reaches it, as it is, and its
/// answer comes back.
pub proof fn law_calls_reach_the_platform<C: Clipboard>(
    clipboard: LanMouseClipboard<C>,
    after: LanMouseClipboard<C>,
    event: Option<ClipboardChange>,
    content: ContentView,
    result: Result<(), ClipboardError>,
)
    requires
        clipboard.inner is Native,
    ensures
        clipboard.next_event_step(&after, event) ==> after.inner is Native
            && clipboard.inner->Native_0.next_event_step(&after.inner->Native_0, event),
        clipboard.set_step(content, &after, result) ==> after.inner is Native
            && clipboard.inner->Native_0.set_step(content, &after.inner->Native_0, result),
        clipboard.terminate_step(&after, result) ==> after.inner is Native
            && clipboard.inner->Native_0.terminate_step(&after.inner->Native_0, result),
{
}

/// Without a request, a backend that cannot fail stands in for none behind it:
/// the first of the order is taken where it never fails, and wherever one is
/// taken all before it failed.
pub proof fn law_the_first_backend_that_opens_is_taken<
    C,
    F: Fn(Backend, &str) -> Result<Option<C>, ClipboardCreationError>,
>(
    open: F,
    order: Seq<Backend>,
    peer_id: &str,
    result: Result<LanMouseClipboard<C>, ClipboardCreationError>,
    sure: int,
)
    requires
        first_opened(open, order, peer_id, result),
        order.no_duplicates(),
        0 <= sure < order.len(),
        forall|e: ClipboardCreationError|
            !(#[trigger] opened(
                open,
                order[sure],
                peer_id,
                Err::<LanMouseClipboard<C>, ClipboardCreationError>(e),
            )),
    ensures
        result is Ok,
        order.take(sure + 1).contains(result->Ok_0.backend),
        opened(open, result->Ok_0.backend, peer_id, result),
        forall|j: int|
            0 <= j < sure && j < order.index_of(result->Ok_0.backend) ==> failed_to_open::<C, F>(
                open,
                #[trigger] order[j],
                peer_id,
            ),
{
    let k = choose|k: int|
        {
            &&& 0 <= k < order.len()
            &&& #[trigger] order[k] == result->Ok_0.backend
            &&& opened(open, order[k], peer_id, result)
            &&& forall|j: int|
                0 <= j < k ==> failed_to_open::<C, F>(open, #[trigger] order[j], peer_id)
        };
    if sure < k {
        assert(failed_to_open::<C, F>(open, order[sure], peer_id));
    }
    assert(order.take(sure + 1)[k] == result->Ok_0.backend);
    assert(order.index_of(result->Ok_0.backend) == k) by {
        let i = order.index_of(result->Ok_0.backend);
        assert(order.contains(result->Ok_0.backend));
        assert(order[i] == order[k]);
    }
}

/// Each system has its own backend: macOS and Windows theirs and never
/// Wayland's, any other Unix Wayland's alone, and any other system none.
pub proof fn law_each_system_has_its_backend(macos: bool, unix: bool, windows: bool)
    ensures
        ({
            let targets = TargetBackends::of(macos, unix, windows);
            &&& targets.macos <==> macos
            &&& targets.windows <==> windows
            &&& macos || windows ==> !targets.wayland
            &&& !macos && !windows ==> (targets.wayland <==> unix)
        }),
{
}

} // verus!
