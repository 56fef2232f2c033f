//! A pool of at most one overlay surface: made when it is first shown, hidden
//! rather than destroyed, and reclaimed once it has lain idle.
//!
//! The surface itself belongs to the windowing toolkit. The pool holds its
//! handle, of any type `H`, and is handed the toolkit's operations as
//! functions where it needs them.

use vstd::prelude::*;
use vstd::string::StringExecFns;

verus! {

/// Milliseconds for which a hidden surface is kept, unless told otherwise:
/// five minutes.
pub const DEFAULT_IDLE_THRESHOLD_MS: u64 = 300_000;

/// Why the overlay could not be shown or hidden. The text is the toolkit's.
#[derive(Debug, PartialEq, Eq)]
pub enum OverlayError {
    /// No surface could be made.
    CreateFailed(String),
    /// The surface could not be made visible.
    ShowFailed(String),
    /// The surface could not be hidden.
    HideFailed(String),
}

impl OverlayError {
    /// The text that the error is reported with: what failed, and the
    /// toolkit's own words.
    pub open spec fn spec_message(self) -> Seq<char> {
        match self {
            OverlayError::CreateFailed(reason) => "Failed to create React overlay: "@ + reason@,
            OverlayError::ShowFailed(reason) => "Failed to show overlay: "@ + reason@,
            OverlayError::HideFailed(reason) => "Failed to hide overlay: "@ + reason@,
        }
    }

    /// The text that the error is reported with.
    pub fn message(&self) -> (text: String)
        ensures
            text@ == self.spec_message(),
    {
        match self {
            OverlayError::CreateFailed(reason) => {
                let mut text = String::from_str("Failed to create React overlay: ");
                text.append(reason.as_str());
                text
            },
            OverlayError::ShowFailed(reason) => {
                let mut text = String::from_str("Failed to show overlay: ");
                text.append(reason.as_str());
                text
            },
            OverlayError::HideFailed(reason) => {
                let mut text = String::from_str("Failed to hide overlay: ");
                text.append(reason.as_str());
                text
            },
        }
    }
}

/// Where the pool stands.
#[derive(Clone, Copy, Debug, PartialEq, Eq, Structural)]
pub enum OverlayPhase {
    /// There is no surface.
    Uninitialized,
    /// There is a surface, and it is hidden.
    Hidden,
    /// There is a surface, and it is shown.
    Shown,
}

/// What a pool holds, as contracts speak of it.
pub struct OverlayModel<H> {
    /// The handle of the surface, if there is one.
    pub surface: Option<H>,
    /// Whether the surface is shown.
    pub is_active: bool,
    /// When the surface was shown last.
    pub last_used: Option<u64>,
    /// The milliseconds for which a hidden surface is kept.
    pub idle_threshold: u64,
}

impl<H> OverlayModel<H> {
    /// Where the pool stands.
    pub open spec fn phase(self) -> OverlayPhase {
        if self.surface is None {
            OverlayPhase::Uninitialized
        } else if self.is_active {
            OverlayPhase::Shown
        } else {
            OverlayPhase::Hidden
        }
    }

    /// Whether the surface has lain idle at `now`: it is hidden, and more
    /// than the threshold has passed since it was shown last.
    pub open spec fn idle(self, now: u64) -> bool {
        &&& self.phase() == OverlayPhase::Hidden
        &&& self.last_used matches Some(at)
        &&& now - at > self.idle_threshold
    }

    /// The pool with `surface` shown at `now`.
    pub open spec fn shown(self, surface: H, now: u64) -> Self {
        OverlayModel { surface: Some(surface), is_active: true, last_used: Some(now), ..self }
    }

    /// The pool once the toolkit has come back from making a surface: with
    /// the surface shown, or unchanged where none could be made.
    pub open spec fn after_create(self, outcome: Result<H, String>, now: u64) -> Self {
        match outcome {
            Ok(surface) => self.shown(surface, now),
            Err(_) => self,
        }
    }

    /// The pool once the toolkit has come back from making its surface
    /// visible: with the surface shown, or unchanged where that failed.
    pub open spec fn after_present(self, outcome: Result<(), String>, now: u64) -> Self {
        match outcome {
            Ok(_) => OverlayModel { is_active: true, last_used: Some(now), ..self },
            Err(_) => self,
        }
    }

    /// The pool once the toolkit has come back from hiding its surface: with
    /// the surface hidden, or unchanged where that failed.
    pub open spec fn after_conceal(self, outcome: Result<(), String>) -> Self {
        match outcome {
            Ok(_) => OverlayModel { is_active: false, ..self },
            Err(_) => self,
        }
    }

    /// The pool without its surface.
    pub open spec fn reclaimed(self) -> Self {
        OverlayModel { surface: None, ..self }
    }
}

/// What showing is answered with once the toolkit has come back from making
/// a surface.
pub open spec fn create_answer<H>(outcome: Result<H, String>) -> Result<(), OverlayError> {
    match outcome {
        Ok(_) => Ok(()),
        Err(reason) => Err(OverlayError::CreateFailed(reason)),
    }
}

/// What showing is answered with once the toolkit has come back from making
/// the surface visible.
pub open spec fn present_answer(outcome: Result<(), String>) -> Result<(), OverlayError> {
    match outcome {
        Ok(_) => Ok(()),
        Err(reason) => Err(OverlayError::ShowFailed(reason)),
    }
}

/// What hiding is answered with once the toolkit has come back from hiding
/// the surface.
pub open spec fn conceal_answer(outcome: Result<(), String>) -> Result<(), OverlayError> {
    match outcome {
        Ok(_) => Ok(()),
        Err(reason) => Err(OverlayError::HideFailed(reason)),
    }
}

/// The overlay pool.
pub struct OverlayManager<H> {
    overlay_window: Option<H>,
    is_active: bool,
    last_used: Option<u64>,
    idle_threshold: u64,
}

impl<H> View for OverlayManager<H> {
    type V = OverlayModel<H>;

    closed spec fn view(&self) -> OverlayModel<H> {
        OverlayModel {
            surface: self.overlay_window,
            is_active: self.is_active,
            last_used: self.last_used,
            idle_threshold: self.idle_threshold,
        }
    }
}

/// What holds of every pool: only a surface that exists is shown, and a
/// surface that exists has been shown at some time.
pub open spec fn model_wf<H>(m: OverlayModel<H>) -> bool {
    &&& m.surface is None ==> !m.is_active
    &&& m.surface is Some ==> m.last_used is Some
}

impl<H> OverlayManager<H> {
    /// The pool's invariant.
    pub open spec fn wf(&self) -> bool {
        model_wf(self@)
    }

    /// A pool without a surface that keeps a hidden surface for five
    /// minutes.
    pub fn new() -> (pool: Self)
        ensures
            pool.wf(),
            pool@ == (OverlayModel::<H> {
                surface: None,
                is_active: false,
                last_used: None,
                idle_threshold: DEFAULT_IDLE_THRESHOLD_MS,
            }),
    {
        Self::with_idle_threshold(DEFAULT_IDLE_THRESHOLD_MS)
    }

    /// A pool without a surface that keeps a hidden surface for
    /// `idle_threshold` milliseconds.
    pub fn with_idle_threshold(idle_threshold: u64) -> (pool: Self)
        ensures
            pool.wf(),
            pool@ == (OverlayModel::<H> {
                surface: None,
                is_active: false,
                last_used: None,
                idle_threshold,
            }),
    {
        OverlayManager { overlay_window: None, is_active: false, last_used: None, idle_threshold }
    }

    /// Whether the overlay is shown.
    pub fn is_overlay_active(&self) -> (active: bool)
        requires
            self.wf(),
        ensures
            active == self@.is_active,
            active == (self@.phase() == OverlayPhase::Shown),
    {
        self.is_active
    }

    /// Where the pool stands.
    pub fn phase(&self) -> (phase: OverlayPhase)
        ensures
            phase == self@.phase(),
    {
        if self.overlay_window.is_none() {
            OverlayPhase::Uninitialized
        } else if self.is_active {
            OverlayPhase::Shown
        } else {
            OverlayPhase::Hidden
        }
    }

    /// Settles a show that had to make a surface, with what the toolkit
    /// came back with.
    pub fn finish_create(&mut self, outcome: Result<H, String>, now: u64) -> (r: Result<
        (),
        OverlayError,
    >)
        requires
            old(self).wf(),
        ensures
            final(self).wf(),
            final(self)@ == old(self)@.after_create(outcome, now),
            r == create_answer(outcome),
    {
        match outcome {
            Ok(surface) => {
                self.overlay_window = Some(surface);
                self.is_active = true;
                self.last_used = Some(now);
                Ok(())
            },
            Err(reason) => Err(OverlayError::CreateFailed(reason)),
        }
    }

    /// Settles a show that reused the surface, with what the toolkit came
    /// back with.
    pub fn finish_present(&mut self, outcome: Result<(), String>, now: u64) -> (r: Result<
        (),
        OverlayError,
    >)
        requires
            old(self).wf(),
            old(self)@.surface is Some,
        ensures
            final(self).wf(),
            final(self)@ == old(self)@.after_present(outcome, now),
            r == present_answer(outcome),
    {
        match outcome {
            Ok(_) => {
                self.is_active = true;
                self.last_used = Some(now);
                Ok(())
            },
            Err(reason) => Err(OverlayError::ShowFailed(reason)),
        }
    }

    /// Settles a hide, with what the toolkit came back with.
    pub fn finish_conceal(&mut self, outcome: Result<(), String>) -> (r: Result<(), OverlayError>)
        requires
            old(self).wf(),
            old(self)@.surface is Some,
        ensures
            final(self).wf(),
            final(self)@ == old(self)@.after_conceal(outcome),
            r == conceal_answer(outcome),
    {
        match outcome {
            Ok(_) => {
                self.is_active = false;
                Ok(())
            },
            Err(reason) => Err(OverlayError::HideFailed(reason)),
        }
    }

    /// Shows the overlay at `now`. Where the pool has no surface, `create`
    /// is called once to make one; where it has one, that one is used again
    /// and `present` is called once to make it visible and give it the focus.
    /// Where the toolkit fails, its failure is handed out and the pool is
    /// left as it was.
    pub fn show_selection_overlay<C, R>(&mut self, now: u64, create: C, present: R) -> (r: Result<
        (),
        OverlayError,
    >) where C: FnOnce() -> Result<H, String>, R: FnOnce(&H) -> Result<(), String>
        requires
            old(self).wf(),
            old(self)@.surface is None ==> call_requires(create, ()),
            old(self)@.surface matches Some(held) ==> call_requires(present, (&held,)),
        ensures
            final(self).wf(),
            old(self)@.surface is None ==> exists|outcome: Result<H, String>|
                #[trigger] call_ensures(create, (), outcome) && final(self)@ == old(self)@.after_create(outcome, now) && r == create_answer(outcome),
            old(self)@.surface matches Some(held) ==> exists|outcome: Result<(), String>|
                #[trigger] call_ensures(present, (&held,), outcome) && final(self)@ == old(self)@.after_present(outcome, now) && r == present_answer(outcome),
    {
        let outcome = match &self.overlay_window {
            Some(surface) => present(surface),
            None => {
                let made = create();
                return self.finish_create(made, now);
            },
        };
        self.finish_present(outcome, now)
    }

    /// Hides the overlay. Where the pool has a surface, `conceal` is called
    /// once to hide it, and the surface is kept for the next show; where it
    /// has none, nothing is done. Where the toolkit fails, its failure is
    /// handed out and the pool is left as it was.
    pub fn hide_overlay<C>(&mut self, conceal: C) -> (r: Result<(), OverlayError>) where
        C: FnOnce(&H) -> Result<(), String>,

        requires
            old(self).wf(),
            old(self)@.surface matches Some(held) ==> call_requires(conceal, (&held,)),
        ensures
            final(self).wf(),
            old(self)@.surface is None ==> final(self)@ == old(self)@ && r is Ok,
            old(self)@.surface matches Some(held) ==> exists|outcome: Result<(), String>|
                #[trigger] call_ensures(conceal, (&held,), outcome) && final(self)@ == old(self)@.after_conceal(outcome) && r == conceal_answer(outcome),
    {
        let outcome = match &self.overlay_window {
            Some(surface) => conceal(surface),
            None => {
                return Ok(());
            },
        };
        self.finish_conceal(outcome)
    }

    /// Whether the surface has lain idle at `now`.
    pub fn is_idle(&self, now: u64) -> (idle: bool)
        requires
            self.wf(),
        ensures
            idle == self@.idle(now),
    {
        match self.last_used {
            Some(at) => self.overlay_window.is_some() && !self.is_active && now > at && now - at
                > self.idle_threshold,
            None => false,
        }
    }

    /// Reclaims the surface if it has lain idle at `now`: `destroy` is
    /// called once on it and the pool is without a surface again. A surface
    /// that is shown, or was shown within the threshold, stays.
    pub fn cleanup_if_old<D>(&mut self, now: u64, destroy: D) where D: FnOnce(H)
        requires
            old(self).wf(),
            old(self)@.idle(now) ==> call_requires(destroy, (old(self)@.surface->0,)),
        ensures
            final(self).wf(),
            old(self)@.idle(now) ==> final(self)@ == old(self)@.reclaimed() && call_ensures(
                destroy,
                (old(self)@.surface->0,),
                (),
            ),
            !old(self)@.idle(now) ==> final(self)@ == old(self)@,
    {
        if self.is_idle(now) {
            match self.overlay_window.take() {
                Some(surface) => {
                    destroy(surface);
                },
                None => {},
            }
        }
    }
}

/// The surface is pooled: once a show has made a surface, hiding keeps it,
/// whatever the toolkit answers, so that the next show finds it and does not
/// make another.
pub proof fn lemma_surface_is_pooled<H>(
    m: OverlayModel<H>,
    surface: H,
    shown_at: u64,
    hidden: Result<(), String>,
)
    requires
        model_wf(m),
        m.surface is None,
    ensures
        m.after_create(Ok(surface), shown_at).phase() == OverlayPhase::Shown,
        m.after_create(Ok(surface), shown_at).after_conceal(hidden).surface == Some(surface),
        hidden is Ok ==> m.after_create(Ok(surface), shown_at).after_conceal(hidden).phase()
            == OverlayPhase::Hidden,
        model_wf(m.after_create(Ok(surface), shown_at).after_conceal(hidden)),
{
}

/// A hidden surface is reclaimed once more than the threshold has passed
/// since it was shown last, and not before; a surface that is shown is never
/// reclaimed. After a reclaim the pool has no surface, so that the next show
/// makes one.
pub proof fn lemma_idle_reclaim<H>(m: OverlayModel<H>, now: u64)
    requires
        model_wf(m),
    ensures
        m.phase() == OverlayPhase::Shown ==> !m.idle(now),
        m.phase() == OverlayPhase::Uninitialized ==> !m.idle(now),
        m.phase() == OverlayPhase::Hidden ==> (m.idle(now) <==> now - m.last_used->0
            > m.idle_threshold),
        m.idle(now) ==> m.reclaimed().phase() == OverlayPhase::Uninitialized && model_wf(
            m.reclaimed(),
        ),
{
}

impl<H> OverlayManager<H> {
    /// The handle of the surface, if there is one.
    pub fn surface(&self) -> (surface: Option<&H>)
        ensures
            match surface {
                Some(handle) => self@.surface == Some(*handle),
                None => self@.surface is None,
            },
    {
        self.overlay_window.as_ref()
    }

    /// When the surface was shown last.
    pub fn last_used(&self) -> (at: Option<u64>)
        ensures
            at == self@.last_used,
    {
        self.last_used
    }

    /// The milliseconds for which a hidden surface is kept.
    pub fn idle_threshold(&self) -> (threshold: u64)
        ensures
            threshold == self@.idle_threshold,
    {
        self.idle_threshold
    }
}

impl<H> Default for OverlayManager<H> {
    /// A pool without a surface that keeps a hidden surface for five
    /// minutes.
    fn default() -> (pool: Self)
        ensures
            pool.wf(),
            pool@ == (OverlayModel::<H> {
                surface: None,
                is_active: false,
                last_used: None,
                idle_threshold: DEFAULT_IDLE_THRESHOLD_MS,
            }),
    {
        Self::new()
    }
}

} // verus!
