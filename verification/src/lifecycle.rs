//! The decisions of the Android front end: which of the activity's and the
//! surface's callbacks start or stop the emulator, which graphics resources
//! a callback must create or release, and whether a frame request renders.
//!
//! The callbacks come from the UI thread and the render thread; the front
//! end keeps one `Lifecycle` behind a lock, performs what a method returns
//! (drawing, creating or dropping resources) and reports back what came of
//! it. A rendered frame swaps buffers only while the emulator still runs,
//! and releases the frame lock with `unlock_frame`.
use vstd::prelude::*;

verus! {

#[derive(Clone, Copy, PartialEq, Eq, Structural, Debug)]
pub struct Lifecycle {
    /// Frames are rendered only while the activity runs with a surface.
    pub running: bool,
    /// A graphics context exists for the current surface.
    pub initialized: bool,
    /// A frame is being rendered; a second request meanwhile is dropped.
    pub frame_lock: bool,
    pub width: i32,
    pub height: i32,
    pub has_context: bool,
    pub has_batch: bool,
    pub has_font: bool,
    /// The emulator has been created and reset.
    pub emulator_ready: bool,
}

/// What a frame request may do.
#[derive(Clone, Copy, PartialEq, Eq, Structural, Debug)]
pub enum FrameStart {
    /// Another frame is being rendered: nothing to do.
    Busy,
    /// The emulator is stopped: nothing to do.
    Stopped,
    /// There is no graphics context yet: nothing to do.
    NoContext,
    /// Make the context current, set up the GL state and create the batch
    /// renderer, then report with `batch_created`.
    CreateBatch,
    /// Render the frame.
    Render,
}

/// Graphics resources to release when the render thread ends, in this
/// order: the font, the batch renderer, the context.
#[derive(Clone, Copy, PartialEq, Eq, Structural, Debug)]
pub struct Teardown {
    pub font: bool,
    pub batch: bool,
    pub context: bool,
}

impl Lifecycle {
    /// The answer to a frame request in this state.
    pub open spec fn frame_start(self) -> FrameStart {
        if self.frame_lock {
            FrameStart::Busy
        } else if !self.running {
            FrameStart::Stopped
        } else if !self.has_context {
            FrameStart::NoContext
        } else if !self.has_batch {
            FrameStart::CreateBatch
        } else {
            FrameStart::Render
        }
    }

    /// The state after a frame request: the frame lock is taken when the
    /// frame goes on.
    pub open spec fn after_begin(self) -> Lifecycle {
        let go_on = self.frame_start() == FrameStart::CreateBatch || self.frame_start() == FrameStart::Render;
        Lifecycle { frame_lock: self.frame_lock || go_on, ..self }
    }
}

impl Lifecycle {
    /// Before any callback: nothing runs and nothing exists.
    pub fn new() -> (l: Lifecycle)
        ensures
            l == (Lifecycle {
                running: false,
                initialized: false,
                frame_lock: false,
                width: 0,
                height: 0,
                has_context: false,
                has_batch: false,
                has_font: false,
                emulator_ready: false,
            }),
    {
        Lifecycle {
            running: false,
            initialized: false,
            frame_lock: false,
            width: 0,
            height: 0,
            has_context: false,
            has_batch: false,
            has_font: false,
            emulator_ready: false,
        }
    }

    pub fn is_running(&self) -> (b: bool)
        ensures
            b == self.running,
    {
        self.running
    }

    pub fn set_running(&mut self, running: bool)
        ensures
            *final(self) == (Lifecycle { running, ..*old(self) }),
    {
        self.running = running;
    }

    /// Takes the frame lock if it is free; returns whether it was taken.
    pub fn try_lock_frame(&mut self) -> (taken: bool)
        ensures
            taken == !old(self).frame_lock,
            *final(self) == (Lifecycle { frame_lock: true, ..*old(self) }),
    {
        if self.frame_lock {
            false
        } else {
            self.frame_lock = true;
            true
        }
    }

    pub fn unlock_frame(&mut self)
        ensures
            *final(self) == (Lifecycle { frame_lock: false, ..*old(self) }),
    {
        self.frame_lock = false;
    }

    /// A new surface: returns whether an old graphics context must be
    /// dropped first. Dropping it invalidates the batch renderer and the
    /// font made for it.
    pub fn surface_created(&mut self) -> (drop_old: bool)
        ensures
            drop_old == old(self).has_context,
            *final(self) == (if old(self).has_context {
                Lifecycle { has_context: false, has_batch: false, has_font: false, ..*old(self) }
            } else {
                *old(self)
            }),
    {
        if self.has_context {
            self.has_context = false;
            self.has_batch = false;
            self.has_font = false;
            true
        } else {
            false
        }
    }

    /// A graphics context was made for a window of `width` by `height`:
    /// the emulator runs.
    pub fn context_created(&mut self, width: i32, height: i32)
        ensures
            *final(self) == (Lifecycle {
                has_context: true,
                width,
                height,
                initialized: true,
                running: true,
                ..*old(self)
            }),
    {
        self.has_context = true;
        self.width = width;
        self.height = height;
        self.initialized = true;
        self.running = true;
    }

    pub fn surface_changed(&mut self, width: i32, height: i32)
        ensures
            *final(self) == (Lifecycle { width, height, ..*old(self) }),
    {
        self.width = width;
        self.height = height;
    }

    /// The surface is destroyed, or the activity pauses or is destroyed:
    /// the emulator stops.
    pub fn stop(&mut self)
        ensures
            *final(self) == (Lifecycle { running: false, ..*old(self) }),
    {
        self.running = false;
    }

    /// The render thread ends: every graphics resource that exists is
    /// released.
    pub fn render_thread_exit(&mut self) -> (t: Teardown)
        ensures
            t == (Teardown { font: old(self).has_font, batch: old(self).has_batch, context: old(self).has_context }),
            *final(self) == (Lifecycle {
                has_font: false,
                has_batch: false,
                has_context: false,
                initialized: false,
                ..*old(self)
            }),
    {
        let t = Teardown { font: self.has_font, batch: self.has_batch, context: self.has_context };
        self.has_font = false;
        self.has_batch = false;
        self.has_context = false;
        self.initialized = false;
        t
    }

    /// A frame is requested: the answer says what to do, and the frame lock
    /// is taken when the frame goes on.
    pub fn begin_frame(&mut self) -> (s: FrameStart)
        ensures
            s == old(self).frame_start(),
            *final(self) == old(self).after_begin(),
    {
        if !self.try_lock_frame() {
            return FrameStart::Busy;
        }
        if !self.running {
            self.unlock_frame();
            return FrameStart::Stopped;
        }
        if !self.has_context {
            self.unlock_frame();
            return FrameStart::NoContext;
        }
        if !self.has_batch {
            FrameStart::CreateBatch
        } else {
            FrameStart::Render
        }
    }

    /// The outcome of creating the batch renderer: on success the frame
    /// renders; on failure the frame lock is released and the frame ends.
    pub fn batch_created(&mut self, ok: bool) -> (render: bool)
        ensures
            render == ok,
            *final(self) == (if ok {
                Lifecycle { has_batch: true, ..*old(self) }
            } else {
                Lifecycle { frame_lock: false, ..*old(self) }
            }),
    {
        if ok {
            self.has_batch = true;
        } else {
            self.unlock_frame();
        }
        ok
    }

    /// Whether the emulator must be created and reset before this frame;
    /// it is created once.
    pub fn take_emulator_start(&mut self) -> (start: bool)
        ensures
            start == !old(self).emulator_ready,
            *final(self) == (Lifecycle { emulator_ready: true, ..*old(self) }),
    {
        let start = !self.emulator_ready;
        self.emulator_ready = true;
        start
    }
}

/// Two frame requests in a row never both go on to render: the first one
/// that goes on holds the frame lock.
pub proof fn lemma_frame_exclusion(l: Lifecycle)
    requires
        l.frame_start() == FrameStart::Render || l.frame_start() == FrameStart::CreateBatch,
    ensures
        l.after_begin().frame_start() == FrameStart::Busy,
{
}

/// A frame renders only while the emulator runs with a context and a
/// batch renderer and no other frame holds the lock; the batch renderer is
/// asked for only while it is missing.
pub proof fn lemma_frame_start_conditions(l: Lifecycle)
    ensures
        l.frame_start() == FrameStart::Render <==> (!l.frame_lock && l.running && l.has_context && l.has_batch),
        l.frame_start() == FrameStart::CreateBatch <==> (!l.frame_lock && l.running && l.has_context
            && !l.has_batch),
        l.frame_start() == FrameStart::Busy <==> l.frame_lock,
{
}

/// A frame request that does not go on leaves the state as it was.
pub proof fn lemma_declined_frame_changes_nothing(l: Lifecycle)
    requires
        l.frame_start() != FrameStart::Render,
        l.frame_start() != FrameStart::CreateBatch,
    ensures
        l.after_begin() == l,
{
}

} // verus!
