use vstd::prelude::*;
use vstd::string::*;

verus! {

/// The keys that the window distinguishes.
#[derive(Debug, Clone, Copy, PartialEq, Eq, Structural)]
pub enum Key {
    Escape,
    Other,
}

/// What happened to a key.
#[derive(Debug, Clone, Copy, PartialEq, Eq, Structural)]
pub enum Action {
    Release,
    Press,
    Repeat,
}

/// An event of the window, as far as the window's own policy reads it.
#[derive(Debug, Clone, Copy, PartialEq, Eq, Structural)]
pub enum WindowEvent {
    Key(Key, Action),
    Other,
}

/// Where a window stands in its life.
#[derive(Debug, Clone, Copy, PartialEq, Eq, Structural)]
pub enum Lifecycle {
    /// The window is shown and takes input.
    Open,
    /// The window has been asked to close; it stays so.
    Closing,
    /// The window has been shut down; nothing brings it back.
    Destroyed,
}

/// Whether `event` asks the window to close: the escape key going down.
pub open spec fn is_close_trigger(event: WindowEvent) -> bool {
    event == WindowEvent::Key(Key::Escape, Action::Press)
}

/// Whether any of `events` asks the window to close.
pub open spec fn has_close_trigger(events: Seq<WindowEvent>) -> bool {
    exists|i: int| 0 <= i < events.len() && is_close_trigger(#[trigger] events[i])
}

/// The state in which a frame leaves a window that it found in `before`,
/// after `events` have been drained and with the windowing system's own
/// close flag reading `close_requested`.
pub open spec fn after_frame(
    before: Lifecycle,
    events: Seq<WindowEvent>,
    close_requested: bool,
) -> Lifecycle {
    match before {
        Lifecycle::Destroyed => Lifecycle::Destroyed,
        Lifecycle::Closing => Lifecycle::Closing,
        Lifecycle::Open => if close_requested || has_close_trigger(events) {
            Lifecycle::Closing
        } else {
            Lifecycle::Open
        },
    }
}

/// The window that owns the rendering context: its dimensions, its title
/// and where it stands in its life. The window of the windowing system is
/// the caller's; this is the record of it that the policy works on.
#[derive(Debug)]
pub struct Renderer {
    width: u32,
    height: u32,
    title: String,
    state: Lifecycle,
}

impl Renderer {
    /// The width in pixels that the window was opened with.
    pub closed spec fn spec_width(&self) -> u32 {
        self.width
    }

    /// The height in pixels that the window was opened with.
    pub closed spec fn spec_height(&self) -> u32 {
        self.height
    }

    /// The title that the window was opened with.
    pub closed spec fn spec_title(&self) -> Seq<char> {
        self.title@
    }

    /// Where the window stands in its life.
    pub closed spec fn phase(&self) -> Lifecycle {
        self.state
    }

    /// Whether two records differ in nothing but the phase.
    pub open spec fn same_window(&self, other: &Renderer) -> bool {
        &&& self.spec_width() == other.spec_width()
        &&& self.spec_height() == other.spec_height()
        &&& self.spec_title() == other.spec_title()
    }

    /// The record of a window of `width` by `height` pixels under `title`,
    /// open and not yet asked to close.
    pub fn initialize(width: u32, height: u32, title: &str) -> (r: Renderer)
        ensures
            r.spec_width() == width,
            r.spec_height() == height,
            r.spec_title() == title@,
            r.phase() == Lifecycle::Open,
    {
        Renderer { width, height, title: String::from_str(title), state: Lifecycle::Open }
    }

    /// Marks the window as shut down. No later frame reopens it.
    pub fn shutdown(&mut self)
        ensures
            final(self).phase() == Lifecycle::Destroyed,
            final(self).same_window(old(self)),
    {
        self.state = Lifecycle::Destroyed;
    }

    /// Accounts for one frame: `events` are the events drained after the
    /// frame was presented, in the order they came, and `close_requested` is
    /// the close flag of the windowing system as it read after them.
    ///
    /// An open window is asked to close by that flag or by an escape key
    /// press among the events. Returns `true` while the window stays open;
    /// once it returns `false` the caller is to set the close flag of the
    /// windowing system, and every later frame returns `false` too.
    pub fn update(&mut self, events: &[WindowEvent], close_requested: bool) -> (open: bool)
        ensures
            final(self).phase() == after_frame(old(self).phase(), events@, close_requested),
            final(self).same_window(old(self)),
            open == (final(self).phase() == Lifecycle::Open),
            has_close_trigger(events@) ==> !open,
            old(self).phase() == Lifecycle::Open && !close_requested && !has_close_trigger(events@)
                ==> open,
            old(self).phase() != Lifecycle::Open ==> !open,
    {
        let mut close = close_requested;
        let mut i: usize = 0;
        while i < events.len()
            invariant
                i <= events.len(),
                close == (close_requested || has_close_trigger(events@.take(i as int))),
            decreases events.len() - i,
        {
            let ghost seen = events@.take(i as int);
            let ghost next = events@.take(i as int + 1);
            let escape = match events[i] {
                WindowEvent::Key(Key::Escape, Action::Press) => true,
                _ => false,
            };
            proof {
                assert(escape == is_close_trigger(events@[i as int]));
                assert(next[i as int] == events@[i as int]);
                assert(forall|j: int| 0 <= j < seen.len() ==> next[j] == seen[j]);
                if has_close_trigger(next) {
                    let j = choose|j: int| 0 <= j < next.len() && is_close_trigger(next[j]);
                    if j < i {
                        assert(is_close_trigger(seen[j]));
                    }
                }
            }
            if escape {
                close = true;
            }
            i += 1;
        }
        assert(events@.take(i as int) == events@);
        match self.state {
            Lifecycle::Open => {
                if close {
                    self.state = Lifecycle::Closing;
                }
            },
            _ => {},
        }
        match self.state {
            Lifecycle::Open => true,
            _ => false,
        }
    }

    /// The width in pixels that the window was opened with.
    pub fn width(&self) -> (r: u32)
        ensures
            r == self.spec_width(),
    {
        self.width
    }

    /// The height in pixels that the window was opened with.
    pub fn height(&self) -> (r: u32)
        ensures
            r == self.spec_height(),
    {
        self.height
    }

    /// The title that the window was opened with.
    pub fn title(&self) -> (r: &str)
        ensures
            r@ == self.spec_title(),
    {
        self.title.as_str()
    }

    /// Where the window stands in its life.
    pub fn lifecycle(&self) -> (r: Lifecycle)
        ensures
            r == self.phase(),
    {
        self.state
    }
}

} // verus!
