use vstd::prelude::*;
use vstd::string::*;

verus! {

/// The platform the application runs on, as far as lifecycle handling cares.
#[derive(Clone, Copy, Debug, PartialEq, Eq, Structural)]
pub enum Platform {
    MacOs,
    Other,
}

/// A lifecycle event delivered by the host runtime.
#[derive(Clone, Copy, Debug, PartialEq, Eq, Structural)]
pub enum LifecycleEvent {
    /// The user asked to reactivate the running application (a dock icon click).
    Reopen { has_visible_windows: bool },
    /// Any other event; none of them calls for an action.
    Other,
}

/// A request on the window at an index of the window registry.
#[derive(Clone, Copy, Debug, PartialEq, Eq, Structural)]
pub enum WindowRequest {
    /// Make the window visible.
    Show(usize),
    /// Give the window input focus.
    SetFocus(usize),
}

impl WindowRequest {
    /// The index of the window that the request addresses.
    pub open spec fn target(self) -> usize {
        match self {
            WindowRequest::Show(i) => i,
            WindowRequest::SetFocus(i) => i,
        }
    }
}

/// The label of the window that a reopen event restores.
pub open spec fn main_label() -> Seq<char> {
    "main"@
}

/// The window labels of a registry, as sequences of characters.
pub open spec fn labels_view(labels: Seq<String>) -> Seq<Seq<char>> {
    labels.map_values(|s: String| s@)
}

/// `i` is the first index of `labels` that holds `label`.
pub open spec fn is_first_with_label(labels: Seq<Seq<char>>, label: Seq<char>, i: int) -> bool {
    &&& 0 <= i < labels.len()
    &&& labels[i] == label
    &&& forall|j: int| 0 <= j < i ==> labels[j] != label
}

/// Some index of `labels` holds `label`.
pub open spec fn has_label(labels: Seq<Seq<char>>, label: Seq<char>) -> bool {
    exists|i: int| 0 <= i < labels.len() && labels[i] == label
}

/// The first index of `labels` that holds `label`; meaningful where `has_label` holds.
pub open spec fn first_with_label(labels: Seq<Seq<char>>, label: Seq<char>) -> int {
    choose|i: int| is_first_with_label(labels, label, i)
}

/// An event of this kind, on this platform, asks for the main window to be restored.
pub open spec fn restores_main(platform: Platform, event: LifecycleEvent) -> bool {
    platform == Platform::MacOs && event == (LifecycleEvent::Reopen { has_visible_windows: false })
}

/// The window requests that `event` calls for, given the labels of the open windows.
pub open spec fn requests_for(
    platform: Platform,
    event: LifecycleEvent,
    labels: Seq<Seq<char>>,
) -> Seq<WindowRequest> {
    if restores_main(platform, event) && has_label(labels, main_label()) {
        let i = first_with_label(labels, main_label()) as usize;
        seq![WindowRequest::Show(i), WindowRequest::SetFocus(i)]
    } else {
        seq![]
    }
}

/// Where a label occurs, its first occurrence exists and is unique.
pub proof fn lemma_first_with_label(labels: Seq<Seq<char>>, label: Seq<char>, i: int)
    requires
        is_first_with_label(labels, label, i),
    ensures
        has_label(labels, label),
        first_with_label(labels, label) == i,
{
    let k = first_with_label(labels, label);
    assert(is_first_with_label(labels, label, k));
    if k < i {
        assert(labels[k] != label);
    } else if i < k {
        assert(labels[i] != label);
    }
}

/// A reopen event while some window is visible calls for nothing, on every
/// platform and whatever windows are open.
pub proof fn lemma_reopen_with_visible_windows_is_noop(platform: Platform, labels: Seq<Seq<char>>)
    ensures
        requests_for(platform, LifecycleEvent::Reopen { has_visible_windows: true }, labels)
            == Seq::<WindowRequest>::empty(),
{
}

/// On macOS, a reopen event while no window is visible, with a window labelled
/// "main" at index `i`, calls for exactly one show and one focus request, both
/// on that window and on no other.
pub proof fn lemma_reopen_restores_main(labels: Seq<Seq<char>>, i: int)
    requires
        labels.len() <= usize::MAX,
        0 <= i < labels.len(),
        labels[i] == main_label(),
        forall|j: int| 0 <= j < labels.len() && j != i ==> labels[j] != main_label(),
    ensures
        ({
            let r = requests_for(
                Platform::MacOs,
                LifecycleEvent::Reopen { has_visible_windows: false },
                labels,
            );
            &&& r == seq![WindowRequest::Show(i as usize), WindowRequest::SetFocus(i as usize)]
            &&& forall|k: int| 0 <= k < r.len() ==> r[k].target() as int == i
        }),
{
    assert(is_first_with_label(labels, main_label(), i));
    lemma_first_with_label(labels, main_label(), i);
}

/// A reopen event while no window is visible, with no window labelled "main",
/// calls for nothing.
pub proof fn lemma_reopen_without_main_is_noop(platform: Platform, labels: Seq<Seq<char>>)
    requires
        !has_label(labels, main_label()),
    ensures
        requests_for(platform, LifecycleEvent::Reopen { has_visible_windows: false }, labels)
            == Seq::<WindowRequest>::empty(),
{
}

/// Looks up the window labelled `label`: the first index that holds it, or
/// `None` where no window has that label.
pub fn find_window(labels: &Vec<String>, label: &str) -> (r: Option<usize>)
    ensures
        match r {
            Some(i) => is_first_with_label(labels_view(labels@), label@, i as int),
            None => !has_label(labels_view(labels@), label@),
        },
{
    let target = String::from_str(label);
    let mut i: usize = 0;
    while i < labels.len()
        invariant
            i <= labels.len(),
            target@ == label@,
            forall|j: int| 0 <= j < i ==> labels_view(labels@)[j] != label@,
        decreases labels.len() - i,
    {
        if labels[i] == target {
            return Some(i);
        }
        i = i + 1;
    }
    None
}

/// Decides what to do with the windows on a lifecycle event. On macOS, a reopen
/// event while no window is visible shows and focuses the window labelled
/// "main", where there is one; every other event, platform or registry calls
/// for nothing.
pub fn handle_event(platform: Platform, event: LifecycleEvent, labels: &Vec<String>) -> (r: Vec<
    WindowRequest,
>)
    ensures
        r@ == requests_for(platform, event, labels_view(labels@)),
{
    let restore = match event {
        LifecycleEvent::Reopen { has_visible_windows } => match platform {
            Platform::MacOs => !has_visible_windows,
            Platform::Other => false,
        },
        LifecycleEvent::Other => false,
    };
    if !restore {
        return Vec::new();
    }
    proof {
        reveal_strlit("main");
    }
    match find_window(labels, "main") {
        Some(i) => {
            proof {
                lemma_first_with_label(labels_view(labels@), main_label(), i as int);
            }
            let r = vec![WindowRequest::Show(i), WindowRequest::SetFocus(i)];
            assert(r@ == seq![WindowRequest::Show(i), WindowRequest::SetFocus(i)]);
            r
        },
        None => Vec::new(),
    }
}

} // verus!
