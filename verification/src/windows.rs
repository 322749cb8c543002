use vstd::prelude::*;

verus! {

/// Extended window style of tool windows, which have no task bar button.
pub const WS_EX_TOOLWINDOW: i32 = 0x0080;
/// The `BOOL` that tells `EnumWindows` to go on enumerating.
pub const TRUE: i32 = 1;

/// A top-level window that the manager tiles.
#[derive(Clone, Debug)]
pub struct WindowInfo {
    pub title: String,
    pub hwnd: usize,
}

impl View for WindowInfo {
    type V = (usize, Seq<char>);

    open spec fn view(&self) -> (usize, Seq<char>) {
        (self.hwnd, self.title@)
    }
}

/// Whether a window is one that the manager tiles: it is visible, has a
/// title, is not cloaked (a suspended store app) and is not a tool window.
pub open spec fn manageable(visible: i32, title: Seq<char>, cloaked: i32, ex_style: i32) -> bool {
    &&& visible != 0
    &&& title.len() > 0
    &&& cloaked == 0
    &&& ex_style & WS_EX_TOOLWINDOW != WS_EX_TOOLWINDOW
}

/// Where the check of one window stands: the query it waits on, or its
/// verdict. The queries are asked in order, and the first one that fails
/// ends the check.
#[derive(Debug)]
pub enum ProbeState {
    /// Waits for `IsWindowVisible`.
    AwaitVisible { hwnd: usize },
    /// Waits for the window's title.
    AwaitTitle { hwnd: usize },
    /// Waits for the `DWMWA_CLOAKED` attribute.
    AwaitCloaked { hwnd: usize, title: String },
    /// Waits for the extended window style.
    AwaitExStyle { hwnd: usize, title: String },
    /// The window is not tiled.
    Skipped,
    /// The window is tiled under this title.
    Accepted { hwnd: usize, title: String },
}

/// The answer to a query about a window.
#[derive(Debug)]
pub enum ProbeAnswer {
    /// What `IsWindowVisible` returned.
    Visible(i32),
    /// The window's title.
    Title(String),
    /// The `DWMWA_CLOAKED` attribute.
    Cloaked(i32),
    /// What `GetWindowLongW(hwnd, GWL_EXSTYLE)` returned.
    ExStyle(i32),
}

/// Whether `answer` answers the query that `state` waits on.
pub open spec fn answers(state: ProbeState, answer: ProbeAnswer) -> bool {
    match state {
        ProbeState::AwaitVisible { .. } => answer is Visible,
        ProbeState::AwaitTitle { .. } => answer is Title,
        ProbeState::AwaitCloaked { .. } => answer is Cloaked,
        ProbeState::AwaitExStyle { .. } => answer is ExStyle,
        _ => false,
    }
}

/// The check's next state after an answer.
pub open spec fn probe_next(state: ProbeState, answer: ProbeAnswer) -> ProbeState {
    match state {
        ProbeState::AwaitVisible { hwnd } => if answer->Visible_0 == 0 {
            ProbeState::Skipped
        } else {
            ProbeState::AwaitTitle { hwnd }
        },
        ProbeState::AwaitTitle { hwnd } => if answer->Title_0@.len() == 0 {
            ProbeState::Skipped
        } else {
            ProbeState::AwaitCloaked { hwnd, title: answer->Title_0 }
        },
        ProbeState::AwaitCloaked { hwnd, title } => if answer->Cloaked_0 != 0 {
            ProbeState::Skipped
        } else {
            ProbeState::AwaitExStyle { hwnd, title }
        },
        ProbeState::AwaitExStyle { hwnd, title } => if answer->ExStyle_0 & WS_EX_TOOLWINDOW
            == WS_EX_TOOLWINDOW {
            ProbeState::Skipped
        } else {
            ProbeState::Accepted { hwnd, title }
        },
        _ => state,
    }
}

/// Starts the check of a window.
pub fn start_probe(hwnd: usize) -> (s: ProbeState)
    ensures
        s == (ProbeState::AwaitVisible { hwnd }),
{
    ProbeState::AwaitVisible { hwnd }
}

/// Tells whether `probe_step` takes `answer` in `state`.
pub fn probe_answers(state: &ProbeState, answer: &ProbeAnswer) -> (b: bool)
    ensures
        b == answers(*state, *answer),
{
    match state {
        ProbeState::AwaitVisible { .. } => matches!(answer, ProbeAnswer::Visible(_)),
        ProbeState::AwaitTitle { .. } => matches!(answer, ProbeAnswer::Title(_)),
        ProbeState::AwaitCloaked { .. } => matches!(answer, ProbeAnswer::Cloaked(_)),
        ProbeState::AwaitExStyle { .. } => matches!(answer, ProbeAnswer::ExStyle(_)),
        _ => false,
    }
}

/// Takes the answer to the query that the check waits on.
pub fn probe_step(state: ProbeState, answer: ProbeAnswer) -> (next: ProbeState)
    requires
        answers(state, answer),
    ensures
        next == probe_next(state, answer),
{
    match state {
        ProbeState::AwaitVisible { hwnd } => match answer {
            ProbeAnswer::Visible(v) => if v == 0 {
                ProbeState::Skipped
            } else {
                ProbeState::AwaitTitle { hwnd }
            },
            _ => ProbeState::Skipped,
        },
        ProbeState::AwaitTitle { hwnd } => match answer {
            ProbeAnswer::Title(title) => if title.as_str().is_empty() {
                ProbeState::Skipped
            } else {
                ProbeState::AwaitCloaked { hwnd, title }
            },
            _ => ProbeState::Skipped,
        },
        ProbeState::AwaitCloaked { hwnd, title } => match answer {
            ProbeAnswer::Cloaked(c) => if c != 0 {
                ProbeState::Skipped
            } else {
                ProbeState::AwaitExStyle { hwnd, title }
            },
            _ => ProbeState::Skipped,
        },
        ProbeState::AwaitExStyle { hwnd, title } => match answer {
            ProbeAnswer::ExStyle(e) => if e & WS_EX_TOOLWINDOW == WS_EX_TOOLWINDOW {
                ProbeState::Skipped
            } else {
                ProbeState::Accepted { hwnd, title }
            },
            _ => ProbeState::Skipped,
        },
        _ => state,
    }
}

/// The verdict of a check that is given the answers `visible`, `title`,
/// `cloaked` and `ex_style`, each only if the check asks for it.
pub open spec fn probe_run(
    hwnd: usize,
    visible: i32,
    title: String,
    cloaked: i32,
    ex_style: i32,
) -> ProbeState {
    let s1 = probe_next(ProbeState::AwaitVisible { hwnd }, ProbeAnswer::Visible(visible));
    if !(s1 is AwaitTitle) {
        s1
    } else {
        let s2 = probe_next(s1, ProbeAnswer::Title(title));
        if !(s2 is AwaitCloaked) {
            s2
        } else {
            let s3 = probe_next(s2, ProbeAnswer::Cloaked(cloaked));
            if !(s3 is AwaitExStyle) {
                s3
            } else {
                probe_next(s3, ProbeAnswer::ExStyle(ex_style))
            }
        }
    }
}

/// A check accepts a window exactly when the window is manageable, and then
/// under its own handle and title; otherwise it skips it. An invisible window
/// is skipped before its title is asked for.
pub proof fn lemma_probe_decides(hwnd: usize, visible: i32, title: String, cloaked: i32, ex_style: i32)
    ensures
        probe_run(hwnd, visible, title, cloaked, ex_style) is Accepted <==> manageable(
            visible,
            title@,
            cloaked,
            ex_style,
        ),
        !manageable(visible, title@, cloaked, ex_style) ==> probe_run(
            hwnd,
            visible,
            title,
            cloaked,
            ex_style,
        ) is Skipped,
        manageable(visible, title@, cloaked, ex_style) ==> probe_run(
            hwnd,
            visible,
            title,
            cloaked,
            ex_style,
        ) == (ProbeState::Accepted { hwnd, title }),
        visible == 0 ==> probe_next(ProbeState::AwaitVisible { hwnd }, ProbeAnswer::Visible(visible))
            is Skipped,
{
}

/// The windows collected while `EnumWindows` walks the top-level windows.
pub struct CallbackState {
    windows: Vec<WindowInfo>,
}

impl CallbackState {
    /// Every collected window has a title.
    #[verifier::type_invariant]
    spec fn titled(self) -> bool {
        forall|i: int| 0 <= i < self.windows@.len() ==> #[trigger] self.windows@[i].title@.len() > 0
    }

    /// The collected windows, as handles and titles, in the order they were
    /// collected.
    pub closed spec fn view(&self) -> Seq<(usize, Seq<char>)> {
        self.windows@.map_values(|w: WindowInfo| w@)
    }

    /// An empty collection.
    pub fn new() -> (s: Self)
        ensures
            s.view() == Seq::<(usize, Seq<char>)>::empty(),
    {
        let s = CallbackState { windows: Vec::new() };
        assert(s.view() =~= Seq::<(usize, Seq<char>)>::empty());
        s
    }

    /// The collected windows.
    pub fn windows(&self) -> (w: &Vec<WindowInfo>)
        ensures
            w@.map_values(|x: WindowInfo| x@) == self.view(),
            forall|i: int| 0 <= i < w@.len() ==> #[trigger] w@[i].title@.len() > 0,
    {
        proof {
            use_type_invariant(self);
        }
        &self.windows
    }

    /// Number of collected windows.
    pub fn len(&self) -> (n: usize)
        ensures
            n == self.view().len(),
    {
        self.windows.len()
    }

    /// Records the verdict of a window's check: an accepted window is added at
    /// the end, a skipped one leaves the collection as it was. Answers `TRUE`
    /// so that the enumeration goes on.
    pub fn store_window(&mut self, verdict: ProbeState) -> (r: i32)
        requires
            verdict is Skipped || verdict is Accepted,
            verdict is Accepted ==> verdict->Accepted_title@.len() > 0,
        ensures
            r == TRUE,
            verdict is Skipped ==> final(self).view() == old(self).view(),
            verdict is Accepted ==> final(self).view() == old(self).view().push(
                (verdict->Accepted_hwnd, verdict->Accepted_title@),
            ),
            forall|i: int|
                0 <= i < final(self).view().len() ==> #[trigger] final(self).view()[i].1.len() > 0,
    {
        proof {
            use_type_invariant(&*self);
        }
        match verdict {
            ProbeState::Accepted { hwnd, title } => {
                let mut windows: Vec<WindowInfo> = Vec::new();
                std::mem::swap(&mut windows, &mut self.windows);
                windows.push(WindowInfo { title, hwnd });
                self.windows = windows;
            },
            _ => {},
        }
        proof {
            use_type_invariant(&*self);
            assert(self.view() =~= old(self).view().push((verdict->Accepted_hwnd, verdict->Accepted_title@)) || verdict is Skipped);
        }
        TRUE
    }
}

} // verus!
