//! The window session: the handles it owns, the checks that decide whether
//! creation succeeded, and the model of the platform's class registration.
//!
//! The platform creates windows and controls and reports each outcome as a
//! raw handle value, null (zero) on failure. This module owns everything the
//! session decides about those values; the platform calls themselves happen
//! outside the crate.

use vstd::prelude::*;

verus! {

/// The fixed width of the session's top-level window.
pub const WINDOW_WIDTH: i32 = 200;

/// The fixed height of the session's top-level window.
pub const WINDOW_HEIGHT: i32 = 200;

/// The fixed placement of the child control within the window:
/// x, y, width, height.
pub const CONTROL_X: i32 = 50;

pub const CONTROL_Y: i32 = 50;

pub const CONTROL_WIDTH: i32 = 100;

pub const CONTROL_HEIGHT: i32 = 30;

/// An opaque platform-owned handle, modelled as the integer value of the
/// identifier the platform returned. Zero is the null handle. A session's
/// handles are valid only between its creation and the return of its
/// message pump, and are never referenced afterwards.
#[derive(Clone, Copy, Debug, PartialEq, Eq, Structural)]
pub struct Handle {
    pub raw: usize,
}

impl Handle {
    /// The platform reported success: the handle is not null.
    pub open spec fn is_valid(self) -> bool {
        self.raw != 0
    }
}

/// Why a session could not be built. No other error class exists: showing
/// the window and pumping its messages cannot fail observably.
#[derive(Clone, Copy, Debug, PartialEq, Eq, Structural)]
pub enum CreationError {
    /// The top-level window handle did not materialize.
    WindowCreation,
    /// The child control handle did not materialize.
    ControlCreation,
}

/// One window session: one top-level window and, parented to it, one child
/// control. The session is consumed by running its message pump to
/// completion; no two sessions exist concurrently.
#[derive(Clone, Copy, Debug, PartialEq, Eq, Structural)]
pub struct Session {
    /// Owned by the session for its whole lifetime.
    pub window: Handle,
    /// A weak back-reference: the control's true owner is the parent window.
    pub control: Handle,
}

impl Session {
    /// Both handles materialized.
    pub open spec fn wf(self) -> bool {
        self.window.is_valid() && self.control.is_valid()
    }

    /// Judge the outcome of creating the child control, the last step of
    /// building a session: a null handle aborts the build, anything else
    /// completes it. No partially built session escapes.
    pub fn assemble(window: Handle, control_raw: usize) -> (r: Result<Session, CreationError>)
        requires
            window.is_valid(),
        ensures
            control_raw != 0 ==> r == Ok::<Session, CreationError>(
                (Session { window, control: (Handle { raw: control_raw }) }),
            ),
            control_raw == 0 ==> r == Err::<Session, CreationError>(CreationError::ControlCreation),
            r matches Ok(s) ==> s.wf() && s.window == window,
            r is Ok <==> control_raw != 0,
    {
        if control_raw == 0 {
            Err(CreationError::ControlCreation)
        } else {
            Ok(Session { window, control: Handle { raw: control_raw } })
        }
    }
}

/// Judge the outcome of creating the top-level window, the first step of
/// building a session: a null handle aborts the build before any control is
/// attempted.
pub fn accept_window(raw: usize) -> (r: Result<Handle, CreationError>)
    ensures
        raw != 0 ==> r == Ok::<Handle, CreationError>((Handle { raw })),
        raw == 0 ==> r == Err::<Handle, CreationError>(CreationError::WindowCreation),
        r is Ok <==> raw != 0,
        r matches Ok(h) ==> h.is_valid(),
{
    if raw == 0 {
        Err(CreationError::WindowCreation)
    } else {
        Ok(Handle { raw })
    }
}

/// The set of class names a sequence of registrations leaves behind.
spec fn names_of(s: Seq<Vec<u16>>) -> Set<Seq<u16>>
    decreases s.len(),
{
    if s.len() == 0 {
        Set::empty()
    } else {
        names_of(s.drop_last()).insert(s.last()@)
    }
}

proof fn lemma_names_of_contains(s: Seq<Vec<u16>>, name: Seq<u16>)
    ensures
        names_of(s).contains(name) <==> exists|j: int| 0 <= j < s.len() && s[j]@ == name,
    decreases s.len(),
{
    if s.len() > 0 {
        lemma_names_of_contains(s.drop_last(), name);
        if exists|j: int| 0 <= j < s.len() && s[j]@ == name {
            let j = choose|j: int| 0 <= j < s.len() && s[j]@ == name;
            if j < s.len() - 1 {
                assert(s.drop_last()[j]@ == name);
            }
        }
    }
}

/// Equality of two wide strings, element by element.
fn wide_eq(a: &Vec<u16>, b: &Vec<u16>) -> (r: bool)
    ensures
        r <==> a@ == b@,
{
    if a.len() != b.len() {
        proof {
            assert(a@ != b@);
        }
        return false;
    }
    let mut i: usize = 0;
    while i < a.len()
        invariant
            i <= a@.len(),
            a@.len() == b@.len(),
            forall|j: int| 0 <= j < i ==> a@[j] == b@[j],
        decreases a@.len() - i,
    {
        if a[i] != b[i] {
            proof {
                assert(a@[i as int] != b@[i as int]);
            }
            return false;
        }
        i += 1;
    }
    proof {
        assert(a@ =~= b@);
    }
    true
}

/// The model of the platform's window-class table for this process: the set
/// of class names registered so far. Registration is idempotent per name,
/// so repeated open-window cycles under the same class name are tolerated
/// and behave like the first.
pub struct ClassRegistry {
    names: Vec<Vec<u16>>,
}

impl ClassRegistry {
    /// The set of registered class names.
    pub closed spec fn registered(self) -> Set<Seq<u16>> {
        names_of(self.names@)
    }

    /// No class name is registered at startup.
    pub fn new() -> (r: ClassRegistry)
        ensures
            r.registered() == Set::<Seq<u16>>::empty(),
    {
        ClassRegistry { names: Vec::new() }
    }

    /// Whether a class name has been registered.
    pub fn is_registered(&self, name: &Vec<u16>) -> (r: bool)
        ensures
            r <==> self.registered().contains(name@),
    {
        let mut i: usize = 0;
        while i < self.names.len()
            invariant
                i <= self.names@.len(),
                forall|j: int| 0 <= j < i ==> self.names@[j]@ != name@,
            decreases self.names@.len() - i,
        {
            if wide_eq(&self.names[i], name) {
                proof {
                    lemma_names_of_contains(self.names@, name@);
                    assert(exists|j: int|
                        0 <= j < self.names@.len() && self.names@[j]@ == name@) by {
                        assert(self.names@[i as int]@ == name@);
                    }
                }
                return true;
            }
            i += 1;
        }
        proof {
            lemma_names_of_contains(self.names@, name@);
        }
        false
    }

    /// Record a registration. The resulting set is the old one with the
    /// name added, whether or not it was already there; the result says
    /// whether the name was new.
    pub fn register(&mut self, name: &Vec<u16>) -> (fresh: bool)
        ensures
            final(self).registered() == old(self).registered().insert(name@),
            fresh <==> !old(self).registered().contains(name@),
            final(self).registered().contains(name@),
    {
        let already = self.is_registered(name);
        if already {
            proof {
                assert(old(self).registered().insert(name@) =~= old(self).registered());
            }
            false
        } else {
            let mut copy: Vec<u16> = Vec::new();
            let mut i: usize = 0;
            while i < name.len()
                invariant
                    i <= name@.len(),
                    copy@ == name@.subrange(0, i as int),
                decreases name@.len() - i,
            {
                copy.push(name[i]);
                proof {
                    assert(copy@ =~= name@.subrange(0, (i + 1) as int));
                }
                i += 1;
            }
            proof {
                assert(copy@ =~= name@);
            }
            self.names.push(copy);
            proof {
                assert(self.names@.drop_last() =~= old(self).names@);
            }
            true
        }
    }
}

/// The fixed name of the window class every session registers.
pub fn class_name() -> (r: &'static str)
    ensures
        r@ == "MyWindowClass"@,
{
    "MyWindowClass"
}

/// The fixed title of the session's top-level window.
pub fn window_title() -> (r: &'static str)
    ensures
        r@ == "My Window"@,
{
    "My Window"
}

/// The platform's class name for a push-button control.
pub fn control_class() -> (r: &'static str)
    ensures
        r@ == "BUTTON"@,
{
    "BUTTON"
}

/// The fixed label on the session's clickable control.
pub fn control_label() -> (r: &'static str)
    ensures
        r@ == "Click Me"@,
{
    "Click Me"
}

/// Registering a class name a second time leaves the set of registered
/// classes unchanged: the two open-window cycles see the same table, so the
/// second window is built exactly as the first was.
pub proof fn lemma_register_idempotent(registered: Set<Seq<u16>>, name: Seq<u16>)
    ensures
        registered.insert(name).insert(name) == registered.insert(name),
{
    assert(registered.insert(name).insert(name) =~= registered.insert(name));
}

} // verus!
