//! Finding the egui context of a window among the contexts of all windows.
use vstd::prelude::*;

verus! {

/// A window that has an egui context, as the context query sees it.
#[derive(Clone, Copy, Debug, PartialEq, Eq, Hash)]
pub struct WindowContext {
    /// The window entity, by its bits.
    pub window: u64,
    /// Whether the window is the primary window.
    pub is_primary: bool,
}

/// The first position of the primary window's context, if there is one.
pub open spec fn find_primary(contexts: Seq<WindowContext>) -> Option<usize>
    decreases contexts.len(),
{
    if contexts.len() == 0 {
        None
    } else {
        match find_primary(contexts.drop_last()) {
            Some(i) => Some(i),
            None => if contexts.last().is_primary { Some((contexts.len() - 1) as usize) } else { None },
        }
    }
}

/// The first position of a window's context, if the window has one.
pub open spec fn find_context(contexts: Seq<WindowContext>, window: u64) -> Option<usize>
    decreases contexts.len(),
{
    if contexts.len() == 0 {
        None
    } else {
        match find_context(contexts.drop_last(), window) {
            Some(i) => Some(i),
            None => if contexts.last().window == window { Some((contexts.len() - 1) as usize) } else { None },
        }
    }
}

/// What `find_primary` and `find_context` find on a prefix that ends just after a match,
/// or on a prefix without one.
proof fn lemma_find_prefix(contexts: Seq<WindowContext>, window: u64, n: int)
    requires
        0 <= n <= contexts.len(),
        contexts.len() <= usize::MAX,
    ensures
        (forall|j: int| 0 <= j < n ==> !contexts[j].is_primary) ==> find_primary(contexts.take(n)) is None,
        (forall|j: int| 0 <= j < n ==> contexts[j].window != window) ==> find_context(contexts.take(n), window) is None,
        n < contexts.len() && contexts[n].is_primary && (forall|j: int| 0 <= j < n ==> !contexts[j].is_primary)
            ==> find_primary(contexts.take(n + 1)) == Some(n as usize),
        n < contexts.len() && contexts[n].window == window && (forall|j: int| 0 <= j < n ==> contexts[j].window != window)
            ==> find_context(contexts.take(n + 1), window) == Some(n as usize),
    decreases n,
{
    if n > 0 {
        lemma_find_prefix(contexts, window, n - 1);
        assert(contexts.take(n).drop_last() =~= contexts.take(n - 1));
    }
    if n < contexts.len() {
        assert(contexts.take(n + 1).drop_last() =~= contexts.take(n));
    }
}

/// A match found in a prefix is the match of the whole.
proof fn lemma_find_extends(contexts: Seq<WindowContext>, window: u64, n: int)
    requires
        0 <= n <= contexts.len(),
    ensures
        find_primary(contexts.take(n)) is Some ==> find_primary(contexts) == find_primary(contexts.take(n)),
        find_context(contexts.take(n), window) is Some ==> find_context(contexts, window) == find_context(contexts.take(n), window),
    decreases contexts.len() - n,
{
    if n < contexts.len() {
        lemma_find_extends(contexts, window, n + 1);
        assert(contexts.take(n + 1).drop_last() =~= contexts.take(n));
    } else {
        assert(contexts.take(n) =~= contexts);
    }
}

/// The position of the context of the primary window, the first one if the query meets
/// several.
pub fn primary_context(contexts: &Vec<WindowContext>) -> (r: Option<usize>)
    ensures
        r == find_primary(contexts@),
        r matches Some(i) ==> i < contexts@.len() && contexts@[i as int].is_primary,
        r is None ==> forall|j: int| 0 <= j < contexts@.len() ==> !contexts@[j].is_primary,
{
    let n = contexts.len();
    let mut i: usize = 0;
    while i < n
        invariant
            n == contexts@.len(),
            i <= n,
            forall|j: int| 0 <= j < i ==> !contexts@[j].is_primary,
        decreases n - i,
    {
        if contexts[i].is_primary {
            proof {
                lemma_find_prefix(contexts@, 0, i as int);
                lemma_find_extends(contexts@, 0, i + 1);
            }
            return Some(i);
        }
        i += 1;
    }
    proof {
        lemma_find_prefix(contexts@, 0, n as int);
        assert(contexts@.take(n as int) =~= contexts@);
    }
    None
}

/// The position of the context of a window, if the window has one.
pub fn window_context(contexts: &Vec<WindowContext>, window: u64) -> (r: Option<usize>)
    ensures
        r == find_context(contexts@, window),
        r matches Some(i) ==> i < contexts@.len() && contexts@[i as int].window == window,
        r is None ==> forall|j: int| 0 <= j < contexts@.len() ==> contexts@[j].window != window,
{
    let n = contexts.len();
    let mut i: usize = 0;
    while i < n
        invariant
            n == contexts@.len(),
            i <= n,
            forall|j: int| 0 <= j < i ==> contexts@[j].window != window,
        decreases n - i,
    {
        if contexts[i].window == window {
            proof {
                lemma_find_prefix(contexts@, window, i as int);
                lemma_find_extends(contexts@, window, i + 1);
            }
            return Some(i);
        }
        i += 1;
    }
    proof {
        lemma_find_prefix(contexts@, window, n as int);
        assert(contexts@.take(n as int) =~= contexts@);
    }
    None
}

} // verus!
