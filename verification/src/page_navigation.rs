use vstd::prelude::*;

use crate::lex::{lex_compare, LexOrder};

verus! {

/// A request to the page navigation sidebar.
#[derive(Debug, Clone, Copy, PartialEq, Eq, Structural)]
pub enum PageNavigationMsg {
    Select(usize),
    Detach(usize),
    Attach(usize),
}

/// What the widgets have to do after a request.
#[derive(Debug, Clone, PartialEq, Eq)]
pub enum NavigationAction {
    /// Show the stack page of this name.
    ShowPage(String),
    /// Move the page's content into its own window (when `move_content`),
    /// show the placeholder in its place, and present the window.
    DetachPage { index: usize, move_content: bool },
    /// Move the page's content back from its window (when `move_content`),
    /// hide the placeholder, and hide the window.
    AttachPage { index: usize, move_content: bool },
}

/// The pages of the sidebar: their stack names and whether each shows in
/// its own window.
pub struct PageNavigation {
    names: Vec<String>,
    detached: Vec<bool>,
}

impl View for PageNavigation {
    type V = Seq<(Seq<char>, bool)>;

    closed spec fn view(&self) -> Seq<(Seq<char>, bool)> {
        Seq::new(self.names@.len(), |i: int| (self.names@[i]@, self.detached@[i]))
    }
}

/// `k` is the position of the first page named `name`.
pub open spec fn is_first_position(pages: Seq<(Seq<char>, bool)>, name: Seq<char>, k: int) -> bool {
    &&& 0 <= k < pages.len()
    &&& pages[k].0 == name
    &&& forall|j: int| 0 <= j < k ==> (#[trigger] pages[j]).0 != name
}

/// The position of the first page named `name`, if any.
pub open spec fn spec_page_position(pages: Seq<(Seq<char>, bool)>, name: Seq<char>) -> Option<usize> {
    if exists|k: int| is_first_position(pages, name, k) {
        Some((choose|k: int| is_first_position(pages, name, k)) as usize)
    } else {
        None
    }
}

impl PageNavigation {
    /// The lengths of the two lists agree.
    pub closed spec fn wf(&self) -> bool {
        self.names@.len() == self.detached@.len()
    }

    /// The sidebar for pages of the given names, all attached.
    pub fn new(names: Vec<String>) -> (r: Self)
        ensures
            r.wf(),
            r@.len() == names@.len(),
            forall|i: int| 0 <= i < names@.len() ==> #[trigger] r@[i] == (names@[i]@, false),
    {
        let n = names.len();
        let mut detached: Vec<bool> = Vec::new();
        let mut i: usize = 0;
        while i < n
            invariant
                n == names@.len(),
                i <= n,
                detached@.len() == i,
                forall|j: int| 0 <= j < i ==> !detached@[j],
            decreases n - i,
        {
            detached.push(false);
            i += 1;
        }
        PageNavigation { names, detached }
    }

    /// The number of pages.
    pub fn len(&self) -> (r: usize)
        requires
            self.wf(),
        ensures
            r == self@.len(),
    {
        self.names.len()
    }

    /// Handles a request; the index must name a page.
    pub fn update(&mut self, msg: PageNavigationMsg) -> (r: NavigationAction)
        requires
            old(self).wf(),
            match msg {
                PageNavigationMsg::Select(i) => i < old(self)@.len(),
                PageNavigationMsg::Detach(i) => i < old(self)@.len(),
                PageNavigationMsg::Attach(i) => i < old(self)@.len(),
            },
        ensures
            final(self).wf(),
            match msg {
                PageNavigationMsg::Select(i) => final(self)@ == old(self)@ && (r matches NavigationAction::ShowPage(
                    name,
                ) && name@ == old(self)@[i as int].0),
                PageNavigationMsg::Detach(i) => final(self)@ == old(self)@.update(
                    i as int,
                    (old(self)@[i as int].0, true),
                ) && r == (NavigationAction::DetachPage {
                    index: i,
                    move_content: !old(self)@[i as int].1,
                }),
                PageNavigationMsg::Attach(i) => final(self)@ == old(self)@.update(
                    i as int,
                    (old(self)@[i as int].0, false),
                ) && r == (NavigationAction::AttachPage {
                    index: i,
                    move_content: old(self)@[i as int].1,
                }),
            },
    {
        match msg {
            PageNavigationMsg::Select(index) => NavigationAction::ShowPage(self.names[index].clone()),
            PageNavigationMsg::Detach(index) => {
                let move_content = !self.detached[index];
                self.detached.set(index, true);
                assert(self@ =~= old(self)@.update(index as int, (old(self)@[index as int].0, true)));
                NavigationAction::DetachPage { index, move_content }
            },
            PageNavigationMsg::Attach(index) => {
                let move_content = self.detached[index];
                self.detached.set(index, false);
                assert(self@ =~= old(self)@.update(index as int, (old(self)@[index as int].0, false)));
                NavigationAction::AttachPage { index, move_content }
            },
        }
    }

    /// Attaches every page; returns the attach action of each page in order.
    pub fn close_windows(&mut self) -> (r: Vec<NavigationAction>)
        requires
            old(self).wf(),
        ensures
            final(self).wf(),
            final(self)@.len() == old(self)@.len(),
            forall|i: int| 0 <= i < old(self)@.len() ==> #[trigger] final(self)@[i] == (old(self)@[i].0, false),
            r@.len() == old(self)@.len(),
            forall|i: int|
                0 <= i < old(self)@.len() ==> #[trigger] r@[i] == (NavigationAction::AttachPage {
                    index: i as usize,
                    move_content: old(self)@[i].1,
                }),
    {
        let n = self.names.len();
        let mut actions: Vec<NavigationAction> = Vec::new();
        let mut i: usize = 0;
        while i < n
            invariant
                self.wf(),
                n == self@.len(),
                n == old(self)@.len(),
                i <= n,
                actions@.len() == i,
                forall|j: int| 0 <= j < i ==> #[trigger] self@[j] == (old(self)@[j].0, false),
                forall|j: int| i <= j < n ==> #[trigger] self@[j] == old(self)@[j],
                forall|j: int|
                    0 <= j < i ==> #[trigger] actions@[j] == (NavigationAction::AttachPage {
                        index: j as usize,
                        move_content: old(self)@[j].1,
                    }),
            decreases n - i,
        {
            let action = self.update(PageNavigationMsg::Attach(i));
            actions.push(action);
            i += 1;
        }
        actions
    }

    /// The row of the page whose name the stack now shows, if any.
    pub fn position_of(&self, name: Option<&str>) -> (r: Option<usize>)
        requires
            self.wf(),
        ensures
            r == match name {
                Some(n) => spec_page_position(self@, n@),
                None => None,
            },
    {
        let target = match name {
            Some(n) => n,
            None => return None,
        };
        let n = self.names.len();
        let mut i: usize = 0;
        while i < n
            invariant
                self.wf(),
                n == self@.len(),
                i <= n,
                name == Some(target),
                forall|j: int| 0 <= j < i ==> (#[trigger] self@[j]).0 != target@,
            decreases n - i,
        {
            if let LexOrder::Equal = lex_compare(self.names[i].as_str(), target) {
                proof {
                    assert(is_first_position(self@, target@, i as int));
                    let k = choose|k: int| is_first_position(self@, target@, k);
                    if k < i {
                        assert(self@[k].0 != target@);
                    } else if k > i {
                        assert(self@[i as int].0 != target@);
                    }
                }
                return Some(i);
            }
            i += 1;
        }
        proof {
            if exists|k: int| is_first_position(self@, target@, k) {
                let k = choose|k: int| is_first_position(self@, target@, k);
                assert(self@[k].0 != target@);
            }
        }
        None
    }
}

/// Detaching a page and attaching it again leaves the sidebar as it was,
/// apart from the page being attached.
pub proof fn lemma_attach_undoes_detach(pages: Seq<(Seq<char>, bool)>, i: int)
    requires
        0 <= i < pages.len(),
        !pages[i].1,
    ensures
        pages.update(i, (pages[i].0, true)).update(i, (pages[i].0, false)) == pages,
{
    assert(pages.update(i, (pages[i].0, true)).update(i, (pages[i].0, false)) =~= pages);
}

/// When page names are distinct, the row found for the name of page `i` is `i`.
pub proof fn lemma_position_of_page_name(pages: Seq<(Seq<char>, bool)>, i: int)
    requires
        0 <= i < pages.len(),
        forall|a: int, b: int|
            0 <= a < pages.len() && 0 <= b < pages.len() && a != b ==> (#[trigger] pages[a]).0
                != (#[trigger] pages[b]).0,
    ensures
        spec_page_position(pages, pages[i].0) == Some(i as usize),
{
    assert(is_first_position(pages, pages[i].0, i));
    let k = choose|k: int| is_first_position(pages, pages[i].0, k);
    if k != i {
        assert(pages[k].0 != pages[i].0);
    }
}

} // verus!
