//! The decisions of the demo program: which demo a command line selects, and
//! when its event loop stops.
use vstd::prelude::*;
use crate::text::str_equal;

verus! {

/// The demos the program can run.
#[derive(Clone, Copy, Debug, PartialEq, Eq)]
pub enum Demo {
    Gl,
    Hello,
    GlslCookbook1,
    GlslCookbook2,
    GlslCookbook3,
    GlSuperbible1,
    GlSuperbible2,
    GlSuperbible3,
    GlSuperbible4,
}

/// The demo named by `variant` and, for the numbered series, the first
/// argument after it; `None` for a command line that names no demo.
pub open spec fn demo_for(variant: Seq<char>, arg0: Option<Seq<char>>) -> Option<Demo> {
    if variant == "gl"@ {
        Some(Demo::Gl)
    } else if variant == "hello"@ {
        Some(Demo::Hello)
    } else if variant == "glsl-cookbook"@ && arg0 == Some("1"@) {
        Some(Demo::GlslCookbook1)
    } else if variant == "glsl-cookbook"@ && arg0 == Some("2"@) {
        Some(Demo::GlslCookbook2)
    } else if variant == "glsl-cookbook"@ && arg0 == Some("3"@) {
        Some(Demo::GlslCookbook3)
    } else if variant == "gl-superbible"@ && arg0 == Some("1"@) {
        Some(Demo::GlSuperbible1)
    } else if variant == "gl-superbible"@ && arg0 == Some("2"@) {
        Some(Demo::GlSuperbible2)
    } else if variant == "gl-superbible"@ && arg0 == Some("3"@) {
        Some(Demo::GlSuperbible3)
    } else if variant == "gl-superbible"@ && arg0 == Some("4"@) {
        Some(Demo::GlSuperbible4)
    } else {
        None
    }
}

fn arg_is(arg0: Option<&str>, s: &str) -> (r: bool)
    ensures
        r == (arg0 matches Some(a) && a@ == s@),
{
    match arg0 {
        Some(a) => str_equal(a, s),
        None => false,
    }
}

/// The demo that the command line `driver variant args..` selects, or
/// `None` when it names none (the program then stops with "Unrecognized
/// variant").
pub fn dispatch(driver: &str, variant: &str, args: &[&str]) -> (r: Option<Demo>)
    ensures
        r == demo_for(
            variant@,
            if args@.len() > 0 {
                Some(args@[0]@)
            } else {
                None
            },
        ),
{
    proof {
        reveal_strlit("gl");
        reveal_strlit("hello");
        reveal_strlit("glsl-cookbook");
        reveal_strlit("gl-superbible");
        reveal_strlit("1");
        reveal_strlit("2");
        reveal_strlit("3");
        reveal_strlit("4");
        assert("gl"@.len() == 2 && "hello"@.len() == 5 && "glsl-cookbook"@.len() == 13);
        assert("glsl-cookbook"@[2] == 's' && "gl-superbible"@[2] == '-');
        assert("1"@[0] == '1' && "2"@[0] == '2' && "3"@[0] == '3' && "4"@[0] == '4');
    }
    let arg0: Option<&str> = if args.len() > 0 {
        Some(args[0])
    } else {
        None
    };
    if str_equal(variant, "gl") {
        Some(Demo::Gl)
    } else if str_equal(variant, "hello") {
        Some(Demo::Hello)
    } else if str_equal(variant, "glsl-cookbook") {
        if arg_is(arg0, "1") {
            Some(Demo::GlslCookbook1)
        } else if arg_is(arg0, "2") {
            Some(Demo::GlslCookbook2)
        } else if arg_is(arg0, "3") {
            Some(Demo::GlslCookbook3)
        } else {
            None
        }
    } else if str_equal(variant, "gl-superbible") {
        if arg_is(arg0, "1") {
            Some(Demo::GlSuperbible1)
        } else if arg_is(arg0, "2") {
            Some(Demo::GlSuperbible2)
        } else if arg_is(arg0, "3") {
            Some(Demo::GlSuperbible3)
        } else if arg_is(arg0, "4") {
            Some(Demo::GlSuperbible4)
        } else {
            None
        }
    } else {
        None
    }
}

/// What the event loop saw: a request to quit, the Escape key released, or
/// any other event.
#[derive(Clone, Copy, Debug, PartialEq, Eq)]
pub enum LoopEvent {
    Quit,
    EscapeUp,
    Other,
}

/// What the event loop does next: stop, or hand the event to the demo.
#[derive(Clone, Copy, Debug, PartialEq, Eq)]
pub enum LoopStep {
    Stop,
    Process,
}

/// Whether the demo asks for the window to be redrawn after an event.
#[derive(Clone, Copy, Debug, PartialEq, Eq)]
pub enum Redraw {
    Redraw,
    NothingChanged,
}

/// The loop stops on a quit request or a released Escape key, and on any
/// other event once the time allowed has run out.
pub open spec fn loop_step_for(e: LoopEvent, time_is_up: bool) -> LoopStep {
    match e {
        LoopEvent::Quit => LoopStep::Stop,
        LoopEvent::EscapeUp => LoopStep::Stop,
        LoopEvent::Other => if time_is_up {
            LoopStep::Stop
        } else {
            LoopStep::Process
        },
    }
}

/// One turn of the event loop: given the event polled and whether the
/// elapsed time exceeds the time allowed, what to do next.
pub fn loop_step(e: LoopEvent, time_is_up: bool) -> (r: LoopStep)
    ensures
        r == loop_step_for(e, time_is_up),
{
    match e {
        LoopEvent::Quit => LoopStep::Stop,
        LoopEvent::EscapeUp => LoopStep::Stop,
        LoopEvent::Other => if time_is_up {
            LoopStep::Stop
        } else {
            LoopStep::Process
        },
    }
}

/// How many of the demo's answers asked for a redraw.
pub open spec fn redraw_count(rs: Seq<Redraw>) -> nat
    decreases rs.len(),
{
    if rs.len() == 0 {
        0
    } else {
        redraw_count(rs.drop_last()) + if rs.last() == Redraw::Redraw {
            1nat
        } else {
            0nat
        }
    }
}

/// The state of an event loop run: whether it has stopped, the event (and
/// whether time was up) handed to the demo and not yet answered, the events
/// the loop looked at, the events the demo handled, its answers, and how
/// many buffer swaps were asked for.
pub struct EventLoop {
    stopped: bool,
    pending: Option<(LoopEvent, bool)>,
    offered: Ghost<Seq<(LoopEvent, bool)>>,
    handled: Ghost<Seq<(LoopEvent, bool)>>,
    results: Ghost<Seq<Redraw>>,
    swaps: Ghost<nat>,
}

impl EventLoop {
    pub closed spec fn spec_stopped(&self) -> bool {
        self.stopped
    }

    pub closed spec fn spec_pending(&self) -> Option<(LoopEvent, bool)> {
        self.pending
    }

    pub closed spec fn spec_offered(&self) -> Seq<(LoopEvent, bool)> {
        self.offered@
    }

    pub closed spec fn spec_handled(&self) -> Seq<(LoopEvent, bool)> {
        self.handled@
    }

    pub closed spec fn spec_results(&self) -> Seq<Redraw> {
        self.results@
    }

    pub closed spec fn spec_swaps(&self) -> nat {
        self.swaps@
    }

    /// What every run keeps: the demo handled only events the loop let
    /// through, in the order the loop looked at them, and then at most the
    /// one it is handling now or the one the loop stopped on; one answer per
    /// handled event, and one swap per `Redraw` answer.
    pub open spec fn inv(&self) -> bool {
        &&& self.spec_handled().len() == self.spec_results().len()
        &&& self.spec_offered() == (if self.spec_stopped() {
            self.spec_handled().push(self.spec_offered().last())
        } else {
            match self.spec_pending() {
                Some(p) => self.spec_handled().push(p),
                None => self.spec_handled(),
            }
        })
        &&& (self.spec_stopped() ==> self.spec_pending() is None && self.spec_offered().len() > 0
            && loop_step_for(self.spec_offered().last().0, self.spec_offered().last().1)
            == LoopStep::Stop)
        &&& forall|i: int|
            0 <= i < self.spec_handled().len() ==> loop_step_for(
                (#[trigger] self.spec_handled()[i]).0,
                self.spec_handled()[i].1,
            ) == LoopStep::Process
        &&& self.spec_swaps() == redraw_count(self.spec_results())
        &&& (self.spec_pending() matches Some(p) ==> loop_step_for(p.0, p.1) == LoopStep::Process)
    }

    /// A run that has not looked at any event yet.
    pub fn new() -> (r: EventLoop)
        ensures
            r.inv(),
            !r.spec_stopped(),
            r.spec_pending() is None,
            r.spec_offered() == Seq::<(LoopEvent, bool)>::empty(),
            r.spec_handled() == Seq::<(LoopEvent, bool)>::empty(),
            r.spec_results() == Seq::<Redraw>::empty(),
            r.spec_swaps() == 0,
    {
        EventLoop {
            stopped: false,
            pending: None,
            offered: Ghost(Seq::empty()),
            handled: Ghost(Seq::empty()),
            results: Ghost(Seq::empty()),
            swaps: Ghost(0),
        }
    }

    /// Looks at the next event: the run stops on it, or it goes to the demo.
    /// Once stopped, a run looks at no further event.
    pub fn next_event(&mut self, e: LoopEvent, time_is_up: bool) -> (r: LoopStep)
        requires
            old(self).inv(),
            !old(self).spec_stopped(),
            old(self).spec_pending() is None,
        ensures
            r == loop_step_for(e, time_is_up),
            final(self).inv(),
            final(self).spec_stopped() == (r == LoopStep::Stop),
            final(self).spec_pending() == (if r == LoopStep::Process {
                Some((e, time_is_up))
            } else {
                None
            }),
            final(self).spec_offered() == old(self).spec_offered().push((e, time_is_up)),
            final(self).spec_handled() == old(self).spec_handled(),
            final(self).spec_results() == old(self).spec_results(),
            final(self).spec_swaps() == old(self).spec_swaps(),
    {
        let r = loop_step(e, time_is_up);
        proof {
            self.offered@ = self.offered@.push((e, time_is_up));
        }
        match r {
            LoopStep::Stop => {
                self.stopped = true;
            },
            LoopStep::Process => {
                self.pending = Some((e, time_is_up));
            },
        }
        r
    }

    /// Records the demo's answer to the event it was handed; the result says
    /// whether to swap the window's buffers.
    pub fn event_handled(&mut self, answer: Redraw) -> (swap: bool)
        requires
            old(self).inv(),
            old(self).spec_pending() is Some,
        ensures
            swap == (answer == Redraw::Redraw),
            final(self).inv(),
            final(self).spec_stopped() == old(self).spec_stopped(),
            final(self).spec_pending() is None,
            final(self).spec_offered() == old(self).spec_offered(),
            final(self).spec_handled() == old(self).spec_handled().push(
                old(self).spec_pending()->0,
            ),
            final(self).spec_results() == old(self).spec_results().push(answer),
            final(self).spec_swaps() == old(self).spec_swaps() + (if swap {
                1nat
            } else {
                0nat
            }),
    {
        let swap = swaps_window(answer);
        let ghost p = self.pending->0;
        proof {
            let rs = self.results@.push(answer);
            assert(rs.drop_last() =~= self.results@);
            self.handled@ = self.handled@.push(p);
            self.results@ = rs;
            self.swaps@ = self.swaps@ + if swap {
                1nat
            } else {
                0nat
            };
        }
        self.pending = None;
        assert forall|i: int| 0 <= i < self.spec_handled().len() implies loop_step_for(
            (#[trigger] self.spec_handled()[i]).0,
            self.spec_handled()[i].1,
        ) == LoopStep::Process by {
            if i < old(self).spec_handled().len() {
                assert(self.spec_handled()[i] == old(self).spec_handled()[i]);
            }
        }
        swap
    }
}

/// Whether the window's buffers are swapped after the demo handled an
/// event.
pub fn swaps_window(r: Redraw) -> (b: bool)
    ensures
        b == (r == Redraw::Redraw),
{
    match r {
        Redraw::Redraw => true,
        Redraw::NothingChanged => false,
    }
}

/// An event of the drawing demo, as far as the demo tells events apart.
#[derive(Clone, Copy, Debug, PartialEq, Eq)]
pub enum DefaultEvent {
    Quit,
    EscapeUp,
    /// No event is waiting.
    NoEvent,
    /// The mouse moved to (`x`, `y`), with at least one button held or none.
    MouseMotion { x: i32, y: i32, buttons_held: bool },
    /// A touch event (finger motion, down or up).
    Finger,
    Other,
}

/// What the drawing demo does with an event.
#[derive(Clone, Copy, Debug, PartialEq, Eq)]
pub enum DefaultAction {
    /// Leave the demo.
    Stop,
    /// Stop reading events for now and poll again.
    EndBatch,
    /// Fill the square of side `size` at (`x`, `y`) with the colour
    /// (`red`, `green`, `blue`) and show it.
    Square { x: i32, y: i32, size: u32, red: u8, green: u8, blue: u8 },
    /// Nothing.
    Ignore,
    /// Print the event.
    Print,
}

/// Quit or a released Escape key ends the demo; mouse motion paints a purple
/// square of side 30 where a button is held, a black one of side 3
/// otherwise; touch events are ignored and any other event is printed.
pub open spec fn default_action_spec(e: DefaultEvent) -> DefaultAction {
    match e {
        DefaultEvent::Quit => DefaultAction::Stop,
        DefaultEvent::EscapeUp => DefaultAction::Stop,
        DefaultEvent::NoEvent => DefaultAction::EndBatch,
        DefaultEvent::MouseMotion { x, y, buttons_held } => if buttons_held {
            DefaultAction::Square { x, y, size: 30, red: 128, green: 0, blue: 128 }
        } else {
            DefaultAction::Square { x, y, size: 3, red: 0, green: 0, blue: 0 }
        },
        DefaultEvent::Finger => DefaultAction::Ignore,
        DefaultEvent::Other => DefaultAction::Print,
    }
}

/// What the drawing demo does with the event `e`.
pub fn default_event_action(e: DefaultEvent) -> (r: DefaultAction)
    ensures
        r == default_action_spec(e),
{
    match e {
        DefaultEvent::Quit => DefaultAction::Stop,
        DefaultEvent::EscapeUp => DefaultAction::Stop,
        DefaultEvent::NoEvent => DefaultAction::EndBatch,
        DefaultEvent::MouseMotion { x, y, buttons_held } => if buttons_held {
            DefaultAction::Square { x, y, size: 30, red: 128, green: 0, blue: 128 }
        } else {
            DefaultAction::Square { x, y, size: 3, red: 0, green: 0, blue: 0 }
        },
        DefaultEvent::Finger => DefaultAction::Ignore,
        DefaultEvent::Other => DefaultAction::Print,
    }
}

/// The width of the window of the hello demo.
pub const HELLO_SCREEN_WIDTH: i32 = 640i32;

/// The height of the window of the hello demo.
pub const HELLO_SCREEN_HEIGHT: i32 = 480i32;

/// Where the hello demo draws: the background of size `bw` by `bh` tiled
/// four times from the top left corner, then the image of size `iw` by `ih`
/// centred in the window.
pub fn hello_layout(bw: u32, bh: u32, iw: u32, ih: u32) -> (r: [(i32, i32); 5])
    requires
        bw <= i32::MAX,
        bh <= i32::MAX,
    ensures
        r@ == seq![
            (0i32, 0i32),
            (bw as i32, 0i32),
            (0i32, bh as i32),
            (bw as i32, bh as i32),
            ((HELLO_SCREEN_WIDTH / 2 - iw / 2) as i32, (HELLO_SCREEN_HEIGHT / 2 - ih / 2) as i32),
        ],
        r[4].0 == 320 - iw / 2,
        r[4].1 == 240 - ih / 2,
{
    let w = bw as i32;
    let h = bh as i32;
    let x = HELLO_SCREEN_WIDTH / 2 - (iw / 2) as i32;
    let y = HELLO_SCREEN_HEIGHT / 2 - (ih / 2) as i32;
    let r = [(0i32, 0i32), (w, 0i32), (0i32, h), (w, h), (x, y)];
    proof {
        assert(r@ =~= seq![
            (0i32, 0i32),
            (bw as i32, 0i32),
            (0i32, bh as i32),
            (bw as i32, bh as i32),
            ((HELLO_SCREEN_WIDTH / 2 - iw / 2) as i32, (HELLO_SCREEN_HEIGHT / 2 - ih / 2) as i32),
        ]);
    }
    r
}

} // verus!
