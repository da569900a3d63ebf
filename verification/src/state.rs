//! The application state and its reducer: every user-interface event is a
//! value, and one function maps the current state and an event to the next
//! state and the effect the surrounding shell must perform. The shell owns
//! the windows, the network and the process launch; it feeds events in and
//! carries effects out, and never mutates the state itself.

use vstd::prelude::*;
use crate::decode::FetchError;
use crate::item::{items_view, UpdateItem, UpdateItemView};

verus! {

/// A position on the screen, in pixels.
#[derive(Clone, Copy, Debug, PartialEq, Eq, Structural)]
pub struct Point {
    pub x: i64,
    pub y: i64,
}

/// The mathematical view of a point: its coordinates as unbounded integers.
pub struct PointView {
    pub x: int,
    pub y: int,
}

impl View for Point {
    type V = PointView;

    open spec fn view(&self) -> PointView {
        PointView { x: self.x as int, y: self.y as int }
    }
}

/// A drag in progress: where the pointer went down, and where the window
/// stood at that moment. Every move of the gesture is computed from these
/// two anchors, never from the previous move, so repeated events cannot
/// make the window drift.
#[derive(Clone, Copy, Debug)]
pub struct DragGesture {
    pub anchor: Point,
    pub window_start: Point,
}

/// View of a drag gesture.
pub struct DragGestureView {
    pub anchor: PointView,
    pub window_start: PointView,
}

impl View for DragGesture {
    type V = DragGestureView;

    open spec fn view(&self) -> DragGestureView {
        DragGestureView { anchor: self.anchor@, window_start: self.window_start@ }
    }
}

/// The ways launching the external program can fail.
#[derive(Clone, Copy, Debug, PartialEq, Eq, Structural)]
pub enum LaunchError {
    NotFound,
    SpawnFailed,
    NonZeroExit(i32),
}

/// The windows the application owns.
#[derive(Clone, Copy, Debug, PartialEq, Eq, Structural)]
pub enum WindowKind {
    Main,
    Settings,
}

/// Everything the user interface binds to. The drag anchor exists only
/// while a drag is in progress: `drag` is `Some` strictly between a
/// pointer-down on the drag region and the matching pointer-up.
pub struct AppState {
    /// Free text of the settings window; never validated, never persisted.
    pub input_text: String,
    /// The current feed, replaced wholesale on every successful refresh.
    pub news_items: Vec<UpdateItem>,
    /// Where the main window stands on the screen.
    pub window_pos: Point,
    /// The drag in progress, if any.
    pub drag: Option<DragGesture>,
    /// Token of the newest refresh request; a fetch result carrying an
    /// older token is stale and is ignored.
    pub current_request: u64,
    /// The failure of the newest fetch, if it failed.
    pub last_fetch_error: Option<FetchError>,
    /// The failure of the newest launch attempt, if it failed.
    pub last_launch_error: Option<LaunchError>,
}

/// The mathematical view of the application state.
pub struct AppStateView {
    pub input_text: Seq<char>,
    pub news_items: Seq<UpdateItemView>,
    pub window_pos: PointView,
    pub drag: Option<DragGestureView>,
    pub current_request: u64,
    pub last_fetch_error: Option<FetchError>,
    pub last_launch_error: Option<LaunchError>,
}

impl View for AppState {
    type V = AppStateView;

    open spec fn view(&self) -> AppStateView {
        AppStateView {
            input_text: self.input_text@,
            news_items: items_view(self.news_items@),
            window_pos: self.window_pos@,
            drag: match self.drag {
                Some(g) => Some(g@),
                None => None,
            },
            current_request: self.current_request,
            last_fetch_error: self.last_fetch_error,
            last_launch_error: self.last_launch_error,
        }
    }
}

/// One user-interface or worker event, as a plain value.
#[derive(Debug)]
pub enum Event {
    /// The pointer went down on the drag region, at this screen position.
    PointerDown(Point),
    /// The pointer moved to this screen position.
    PointerMove(Point),
    /// The pointer went up.
    PointerUp,
    /// The settings text box now holds this text.
    InputChanged(String),
    /// The refresh control was activated.
    RefreshRequested,
    /// A fetch started under this token delivered these items.
    FeedArrived(u64, Vec<UpdateItem>),
    /// A fetch started under this token failed.
    FetchFailed(u64, FetchError),
    /// The settings control was activated.
    SettingsRequested,
    /// The connect control was activated.
    ConnectRequested,
    /// The launched program could not be started or ended badly.
    LaunchFailed(LaunchError),
    /// The user asked to close this window.
    CloseRequested(WindowKind),
}

/// View of an event.
pub enum EventView {
    PointerDown(PointView),
    PointerMove(PointView),
    PointerUp,
    InputChanged(Seq<char>),
    RefreshRequested,
    FeedArrived(u64, Seq<UpdateItemView>),
    FetchFailed(u64, FetchError),
    SettingsRequested,
    ConnectRequested,
    LaunchFailed(LaunchError),
    CloseRequested(WindowKind),
}

impl View for Event {
    type V = EventView;

    open spec fn view(&self) -> EventView {
        match self {
            Event::PointerDown(p) => EventView::PointerDown(p@),
            Event::PointerMove(p) => EventView::PointerMove(p@),
            Event::PointerUp => EventView::PointerUp,
            Event::InputChanged(t) => EventView::InputChanged(t@),
            Event::RefreshRequested => EventView::RefreshRequested,
            Event::FeedArrived(tok, items) => EventView::FeedArrived(*tok, items_view(items@)),
            Event::FetchFailed(tok, e) => EventView::FetchFailed(*tok, *e),
            Event::SettingsRequested => EventView::SettingsRequested,
            Event::ConnectRequested => EventView::ConnectRequested,
            Event::LaunchFailed(e) => EventView::LaunchFailed(*e),
            Event::CloseRequested(w) => EventView::CloseRequested(*w),
        }
    }
}

/// What the shell must do after an event was absorbed. The reducer never
/// performs these itself.
#[derive(Clone, Copy, Debug, PartialEq, Eq, Structural)]
pub enum Effect {
    /// Nothing to do.
    Stay,
    /// End the whole process.
    Quit,
    /// Open the settings window at this screen position.
    OpenSettings(Point),
    /// Start a fetch of the feed, to be reported under this token.
    StartFetch(u64),
    /// Start the external program.
    Launch,
}

/// View of an effect.
pub enum EffectView {
    Stay,
    Quit,
    OpenSettings(PointView),
    StartFetch(u64),
    Launch,
}

impl View for Effect {
    type V = EffectView;

    open spec fn view(&self) -> EffectView {
        match self {
            Effect::Stay => EffectView::Stay,
            Effect::Quit => EffectView::Quit,
            Effect::OpenSettings(p) => EffectView::OpenSettings(p@),
            Effect::StartFetch(tok) => EffectView::StartFetch(*tok),
            Effect::Launch => EffectView::Launch,
        }
    }
}

/// The window position a move of the given gesture asks for: the position
/// the window had at pointer-down, shifted by however far the pointer has
/// travelled since. The formula reads only the two anchors, so it does not
/// depend on how many moves were delivered before.
pub open spec fn dragged_to(g: DragGestureView, p: PointView) -> PointView {
    PointView {
        x: g.window_start.x + (p.x - g.anchor.x),
        y: g.window_start.y + (p.y - g.anchor.y),
    }
}

/// The token the next refresh runs under.
pub open spec fn next_token(t: u64) -> u64 {
    if t < u64::MAX {
        (t + 1) as u64
    } else {
        t
    }
}

/// The reducer: the state after an event, and the effect the shell must
/// perform. This is the whole behaviour of the application; the shell adds
/// no decisions of its own.
pub open spec fn step(s: AppStateView, e: EventView) -> (AppStateView, EffectView) {
    match e {
        EventView::PointerDown(p) => (
            AppStateView {
                drag: Some(DragGestureView { anchor: p, window_start: s.window_pos }),
                ..s
            },
            EffectView::Stay,
        ),
        EventView::PointerMove(p) => match s.drag {
            Some(g) => (AppStateView { window_pos: dragged_to(g, p), ..s }, EffectView::Stay),
            None => (s, EffectView::Stay),
        },
        EventView::PointerUp => (AppStateView { drag: None, ..s }, EffectView::Stay),
        EventView::InputChanged(t) => (AppStateView { input_text: t, ..s }, EffectView::Stay),
        EventView::RefreshRequested => (
            AppStateView {
                news_items: Seq::empty(),
                last_fetch_error: None,
                current_request: next_token(s.current_request),
                ..s
            },
            EffectView::StartFetch(next_token(s.current_request)),
        ),
        EventView::FeedArrived(tok, items) => if tok == s.current_request {
            (AppStateView { news_items: items, last_fetch_error: None, ..s }, EffectView::Stay)
        } else {
            (s, EffectView::Stay)
        },
        EventView::FetchFailed(tok, err) => if tok == s.current_request {
            (AppStateView { last_fetch_error: Some(err), ..s }, EffectView::Stay)
        } else {
            (s, EffectView::Stay)
        },
        EventView::SettingsRequested => (s, EffectView::OpenSettings(s.window_pos)),
        EventView::ConnectRequested => (s, EffectView::Launch),
        EventView::LaunchFailed(err) => (
            AppStateView { last_launch_error: Some(err), ..s },
            EffectView::Stay,
        ),
        EventView::CloseRequested(w) => (
            s,
            if w == WindowKind::Main {
                EffectView::Quit
            } else {
                EffectView::Stay
            },
        ),
    }
}

/// The one machine limit on an event: a pointer move of a drag must ask
/// for a window position that a pixel coordinate can hold.
pub open spec fn event_fits(s: AppStateView, e: EventView) -> bool {
    match e {
        EventView::PointerMove(p) => match s.drag {
            Some(g) => i64::MIN <= dragged_to(g, p).x <= i64::MAX && i64::MIN <= dragged_to(
                g,
                p,
            ).y <= i64::MAX,
            None => true,
        },
        _ => true,
    }
}

impl AppState {
    /// The state before the first fetch: empty text, no news, no drag, no
    /// errors, at the given window position.
    pub fn initial(window_pos: Point) -> (r: AppState)
        ensures
            r@ == (AppStateView {
                input_text: Seq::<char>::empty(),
                news_items: Seq::<UpdateItemView>::empty(),
                window_pos: window_pos@,
                drag: None,
                current_request: 0u64,
                last_fetch_error: None,
                last_launch_error: None,
            }),
    {
        let r = AppState {
            input_text: String::new(),
            news_items: Vec::new(),
            window_pos,
            drag: None,
            current_request: 0,
            last_fetch_error: None,
            last_launch_error: None,
        };
        proof {
            assert(items_view(r.news_items@) =~= Seq::<UpdateItemView>::empty());
        }
        r
    }

    /// Absorbs one event and returns the effect the shell must perform;
    /// the new state and the effect are exactly what [`step`] assigns.
    pub fn handle(&mut self, event: Event) -> (eff: Effect)
        requires
            event_fits(old(self)@, event@),
        ensures
            final(self)@ == step(old(self)@, event@).0,
            eff@ == step(old(self)@, event@).1,
    {
        match event {
            Event::PointerDown(p) => {
                self.drag = Some(DragGesture { anchor: p, window_start: self.window_pos });
                Effect::Stay
            },
            Event::PointerMove(p) => {
                match self.drag {
                    Some(g) => {
                        let nx = g.window_start.x as i128 + (p.x as i128 - g.anchor.x as i128);
                        let ny = g.window_start.y as i128 + (p.y as i128 - g.anchor.y as i128);
                        self.window_pos = Point { x: nx as i64, y: ny as i64 };
                    },
                    None => {},
                }
                Effect::Stay
            },
            Event::PointerUp => {
                self.drag = None;
                Effect::Stay
            },
            Event::InputChanged(t) => {
                self.input_text = t;
                Effect::Stay
            },
            Event::RefreshRequested => {
                self.news_items = Vec::new();
                self.last_fetch_error = None;
                if self.current_request < u64::MAX {
                    self.current_request = self.current_request + 1;
                }
                proof {
                    assert(items_view(self.news_items@) =~= Seq::<UpdateItemView>::empty());
                }
                Effect::StartFetch(self.current_request)
            },
            Event::FeedArrived(tok, items) => {
                if tok == self.current_request {
                    self.news_items = items;
                    self.last_fetch_error = None;
                }
                Effect::Stay
            },
            Event::FetchFailed(tok, e) => {
                if tok == self.current_request {
                    self.last_fetch_error = Some(e);
                }
                Effect::Stay
            },
            Event::SettingsRequested => Effect::OpenSettings(self.window_pos),
            Event::ConnectRequested => Effect::Launch,
            Event::LaunchFailed(e) => {
                self.last_launch_error = Some(e);
                Effect::Stay
            },
            Event::CloseRequested(w) => {
                match w {
                    WindowKind::Main => Effect::Quit,
                    WindowKind::Settings => Effect::Stay,
                }
            },
        }
    }
}

/// Turns one finished HTTP exchange into the event the reducer absorbs:
/// the decoded feed under the given token, or the failure that stopped it,
/// as [`crate::decode::process_response`] classifies the exchange.
pub fn response_event(token: u64, status: u16, body: &str) -> (e: Event)
    ensures
        status != 200 ==> e@ == EventView::FetchFailed(token, FetchError::HttpStatus(status)),
        status == 200 && crate::grammar::feed_of(body@) is None ==> e@ == EventView::FetchFailed(
            token,
            FetchError::Decode,
        ),
        status == 200 && crate::grammar::feed_of(body@) is Some ==> e@ == EventView::FeedArrived(
            token,
            crate::grammar::feed_of(body@)->Some_0,
        ),
{
    match crate::decode::process_response(status, body) {
        Ok(items) => Event::FeedArrived(token, items),
        Err(err) => Event::FetchFailed(token, err),
    }
}

/// The state after all the moves of one gesture, applied in order.
pub open spec fn after_moves(s: AppStateView, moves: Seq<PointView>) -> AppStateView
    decreases moves.len(),
{
    if moves.len() == 0 {
        s
    } else {
        after_moves(step(s, EventView::PointerMove(moves[0])).0, moves.drop_first())
    }
}

/// Pointer moves reposition the window and touch nothing else; in
/// particular the anchors of the gesture survive every move.
pub proof fn lemma_moves_keep_drag(s: AppStateView, moves: Seq<PointView>)
    ensures
        after_moves(s, moves).drag == s.drag,
    decreases moves.len(),
{
    if moves.len() > 0 {
        lemma_moves_keep_drag(step(s, EventView::PointerMove(moves[0])).0, moves.drop_first());
    }
}

/// Drag idempotence: a pointer-down followed at once by a pointer-up
/// leaves the window where it was, and ends with no drag in progress.
pub proof fn lemma_drag_idempotent(s: AppStateView, q: PointView)
    ensures
        ({
            let s1 = step(s, EventView::PointerDown(q)).0;
            let s2 = step(s1, EventView::PointerUp).0;
            &&& s2.window_pos == s.window_pos
            &&& s2 == (AppStateView { drag: None, ..s })
        }),
{
}

/// Drag linearity: for a gesture that began with the pointer at `q0`, a
/// move to `q1` puts the window at its drag-start position shifted by
/// `q1 - q0`, however many intermediate moves the same gesture delivered
/// and wherever they pointed; repeated moves to the same place cannot make
/// the window drift.
pub proof fn lemma_drag_linear(
    s: AppStateView,
    q0: PointView,
    moves: Seq<PointView>,
    q1: PointView,
)
    ensures
        ({
            let s1 = step(s, EventView::PointerDown(q0)).0;
            let sm = after_moves(s1, moves);
            let s2 = step(sm, EventView::PointerMove(q1)).0;
            &&& s2.window_pos.x == s.window_pos.x + (q1.x - q0.x)
            &&& s2.window_pos.y == s.window_pos.y + (q1.y - q0.y)
        }),
{
    let s1 = step(s, EventView::PointerDown(q0)).0;
    lemma_moves_keep_drag(s1, moves);
}

/// Refresh replaces, never merges: a feed that arrives under the current
/// token becomes the whole news list, whatever was shown before, and
/// clears any earlier fetch error.
pub proof fn lemma_refresh_replaces(s: AppStateView, items: Seq<UpdateItemView>)
    ensures
        step(s, EventView::FeedArrived(s.current_request, items)).0.news_items == items,
        step(s, EventView::FeedArrived(s.current_request, items)).0.last_fetch_error is None,
{
}

/// A fetch result carrying a stale token changes nothing: a result from an
/// older refresh can never overwrite the outcome of a newer one.
pub proof fn lemma_stale_result_ignored(
    s: AppStateView,
    tok: u64,
    items: Seq<UpdateItemView>,
    err: FetchError,
)
    requires
        tok != s.current_request,
    ensures
        step(s, EventView::FeedArrived(tok, items)).0 == s,
        step(s, EventView::FetchFailed(tok, err)).0 == s,
{
}

/// Activating refresh empties the shown feed, clears any earlier fetch
/// error, and directs the shell to fetch under the state's new token.
pub proof fn lemma_refresh_clears(s: AppStateView)
    ensures
        ({
            let s1 = step(s, EventView::RefreshRequested).0;
            let eff = step(s, EventView::RefreshRequested).1;
            &&& s1.news_items == Seq::<UpdateItemView>::empty()
            &&& s1.last_fetch_error is None
            &&& eff == EffectView::StartFetch(s1.current_request)
            &&& s1.current_request >= s.current_request
        }),
{
}

/// A reported fetch failure under the current token is recorded and leaves
/// the shown feed exactly as it was; nothing terminates.
pub proof fn lemma_fetch_failure_recorded(s: AppStateView, err: FetchError)
    ensures
        step(s, EventView::FetchFailed(s.current_request, err)).0.last_fetch_error == Some(err),
        step(s, EventView::FetchFailed(s.current_request, err)).0.news_items == s.news_items,
        step(s, EventView::FetchFailed(s.current_request, err)).1 == EffectView::Stay,
{
}

/// Window lifecycle: closing the settings window changes nothing and lets
/// the application run on; closing the main window ends the process,
/// whatever other windows are open.
pub proof fn lemma_close_policy(s: AppStateView)
    ensures
        step(s, EventView::CloseRequested(WindowKind::Settings)).1 == EffectView::Stay,
        step(s, EventView::CloseRequested(WindowKind::Settings)).0 == s,
        step(s, EventView::CloseRequested(WindowKind::Main)).1 == EffectView::Quit,
{
}

} // verus!
