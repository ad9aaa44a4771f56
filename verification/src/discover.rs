//! Target discovery: the seam that yields the network targets a job
//! scrapes. Today one variant exists, a static, config-embedded target
//! list; future backends implement the same start/stop contract.
use vstd::prelude::*;

verus! {

/// The view of one discovery result: groups of targets, each target a
/// character sequence.
pub type TargetsView = Seq<Seq<Seq<char>>>;

/// One discovery-result unit: a list of host:port strings sharing
/// discovery-time context.
#[derive(Clone, Debug, PartialEq, Eq, Hash)]
pub struct Group {
    /// The host:port strings of this group.
    pub targets: Vec<String>,
}

/// The groups that one discovery pass yields.
pub type Targets = Vec<Group>;

impl View for Group {
    type V = Seq<Seq<char>>;

    open spec fn view(&self) -> Seq<Seq<char>> {
        self.targets.deep_view()
    }
}

impl DeepView for Group {
    type V = Seq<Seq<char>>;

    open spec fn deep_view(&self) -> Seq<Seq<char>> {
        self@
    }
}

impl Group {
    /// An element-wise copy of this group.
    pub fn deep_clone(&self) -> (r: Group)
        ensures
            r@ == self@,
    {
        let mut targets: Vec<String> = Vec::new();
        let mut i: usize = 0;
        while i < self.targets.len()
            invariant
                i <= self.targets@.len(),
                targets.deep_view() =~= self.targets.deep_view().take(i as int),
            decreases self.targets@.len() - i,
        {
            let ghost pre = targets;
            targets.push(self.targets[i].clone());
            proof {
                crate::views::lemma_deep_view_push(pre, targets, self.targets@[i as int]);
                crate::views::lemma_deep_view_index(self.targets, i as int);
            }
            i += 1;
            assert(targets.deep_view() =~= self.targets.deep_view().take(i as int));
        }
        assert(targets.deep_view() =~= self.targets.deep_view());
        Group { targets }
    }
}

/// An element-wise copy of a list of target groups.
pub fn clone_groups(groups: &Vec<Group>) -> (r: Vec<Group>)
    ensures
        r.deep_view() == groups.deep_view(),
{
    let mut r: Vec<Group> = Vec::new();
    let mut i: usize = 0;
    while i < groups.len()
        invariant
            i <= groups@.len(),
            r.deep_view() =~= groups.deep_view().take(i as int),
        decreases groups@.len() - i,
    {
        let ghost pre = r;
        let g = groups[i].deep_clone();
        r.push(g);
        proof {
            crate::views::lemma_deep_view_push(pre, r, g);
            crate::views::lemma_deep_view_index(*groups, i as int);
        }
        i += 1;
        assert(r.deep_view() =~= groups.deep_view().take(i as int));
    }
    assert(r.deep_view() =~= groups.deep_view());
    r
}

/// Yields target groups to its owning job. The static variant delivers its
/// full group list exactly once, at start; a delivery failure (the receiver
/// already gone) is the caller's to ignore or report.
#[derive(Clone, Debug, PartialEq, Eq, Hash)]
pub struct Discover {
    /// The static target groups, if this job has any configured.
    pub static_configs: Option<Targets>,
}

impl View for Discover {
    type V = Option<Seq<Seq<Seq<char>>>>;

    open spec fn view(&self) -> Option<Seq<Seq<Seq<char>>>> {
        self.static_configs.deep_view()
    }
}

impl DeepView for Discover {
    type V = Option<Seq<Seq<Seq<char>>>>;

    open spec fn deep_view(&self) -> Option<Seq<Seq<Seq<char>>>> {
        self@
    }
}

impl Discover {
    /// Starts discovery. The static variant immediately yields the full
    /// group list once if one is configured, and nothing otherwise; it
    /// never blocks.
    pub fn start(&self) -> (delivery: Option<Targets>)
        ensures
            delivery.deep_view() == self@,
    {
        match &self.static_configs {
            Some(groups) => Some(clone_groups(groups)),
            None => None,
        }
    }

    /// Stops discovery: a no-op for the static variant, defined as an
    /// extension point for future backends that hold a background worker.
    pub fn stop(&self) {
    }
}

} // verus!
