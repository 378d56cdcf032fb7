use vstd::prelude::*;

verus! {

/// The time to wait between two looks at the state of the loads, in milliseconds.
pub const POLL_INTERVAL_MILLIS: u64 = 100;

/// How far the loading of a resource has come.
#[derive(Clone, Debug, PartialEq, Eq)]
pub enum LoadState {
    /// The load was started and has not completed.
    Loading,
    /// The load completed with the given bytes.
    Loaded(Vec<u8>),
    /// The load failed with the given message.
    Failed(String),
}

/// What a load state is.
pub enum LoadView {
    Loading,
    Loaded(Seq<u8>),
    Failed(Seq<char>),
}

impl View for LoadState {
    type V = LoadView;

    open spec fn view(&self) -> LoadView {
        match self {
            LoadState::Loading => LoadView::Loading,
            LoadState::Loaded(bytes) => LoadView::Loaded(bytes@),
            LoadState::Failed(message) => LoadView::Failed(message@),
        }
    }
}

/// What a caller that waits for the loads does next.
#[derive(Clone, Copy, Debug, PartialEq, Eq, Structural)]
pub enum WaitStep {
    /// Sleep for the given number of milliseconds, then ask again.
    Sleep { millis: u64 },
    /// Every load has completed or failed: go on with what was loaded.
    Done,
}

/// The view of what the result of a load attempt turns a load into.
pub open spec fn completed(result: Result<Vec<u8>, String>) -> LoadView {
    match result {
        Ok(bytes) => LoadView::Loaded(bytes@),
        Err(message) => LoadView::Failed(message@),
    }
}

/// Whether some load among the given ones has not completed.
pub open spec fn pending(loads: Map<Seq<char>, LoadView>) -> bool {
    exists|path: Seq<char>| #[trigger] loads.dom().contains(path) && loads[path] is Loading
}

struct Load {
    path: String,
    state: LoadState,
}

/// Whether no path occurs twice.
spec fn distinct(loads: Seq<Load>) -> bool {
    forall|i: int, j: int|
        0 <= i < j < loads.len() ==> (#[trigger] loads[i]).path@ != (#[trigger] loads[j]).path@
}

/// Whether the load at the given index is for the given path.
spec fn found(loads: Seq<Load>, path: Seq<char>, i: int) -> bool {
    0 <= i < loads.len() && loads[i].path@ == path
}

/// The state of each path among the loads.
spec fn states(loads: Seq<Load>) -> Map<Seq<char>, LoadView> {
    Map::new(
        |path: Seq<char>| exists|i: int| found(loads, path, i),
        |path: Seq<char>| loads[choose|i: int| found(loads, path, i)].state@,
    )
}

/// With distinct paths, the state of the path of a load is the state of that load.
proof fn lemma_state_at(loads: Seq<Load>, i: int)
    requires
        distinct(loads),
        0 <= i < loads.len(),
    ensures
        states(loads).dom().contains(loads[i].path@),
        states(loads)[loads[i].path@] == loads[i].state@,
{
    let path = loads[i].path@;
    assert(found(loads, path, i));
    let j = choose|j: int| found(loads, path, j);
    assert(found(loads, path, j));
    if j < i {
        assert(loads[j].path@ != loads[i].path@);
    } else if i < j {
        assert(loads[i].path@ != loads[j].path@);
    }
}

/// Keeps track of the resources that are being loaded, each under its path,
/// and decides when all of them are there.
///
/// The loader does no input or output itself. Its user starts each load,
/// performs it by whatever means it has, and hands the result back; it asks
/// the loader whether to wait on.
pub struct Loader {
    loads: Vec<Load>,
}

impl View for Loader {
    type V = Map<Seq<char>, LoadView>;

    closed spec fn view(&self) -> Map<Seq<char>, LoadView> {
        states(self.loads@)
    }
}

impl Loader {
    /// No path occurs twice.
    #[verifier::type_invariant]
    closed spec fn inv(&self) -> bool {
        distinct(self.loads@)
    }

    /// A loader without loads.
    pub fn new() -> (loader: Loader)
        ensures
            loader@ == Map::<Seq<char>, LoadView>::empty(),
    {
        let loader = Loader { loads: Vec::new() };
        assert(loader@ =~= Map::<Seq<char>, LoadView>::empty()) by {
            assert forall|path: Seq<char>| !loader@.dom().contains(path) by {
                assert forall|i: int| !found(loader.loads@, path, i) by {}
            }
        }
        loader
    }

    /// The index of the load for the given path, if there is one.
    fn position(&self, path: &String) -> (r: Option<usize>)
        ensures
            r matches Some(i) ==> found(self.loads@, path@, i as int),
            r is None ==> forall|i: int| !found(self.loads@, path@, i),
            r is Some <==> self@.dom().contains(path@),
    {
        let mut i: usize = 0;
        while i < self.loads.len()
            invariant
                i <= self.loads.len(),
                forall|j: int| 0 <= j < i ==> !found(self.loads@, path@, j),
            decreases self.loads.len() - i,
        {
            if self.loads[i].path == *path {
                assert(found(self.loads@, path@, i as int));
                return Some(i);
            }
            i = i + 1;
        }
        None
    }

    /// Sets the state of the given path, whether it had one or not.
    fn insert(&mut self, path: String, state: LoadState)
        ensures
            final(self)@ == old(self)@.insert(path@, state@),
    {
        proof {
            use_type_invariant(&*self);
        }
        let ghost before = self.loads@;
        let ghost key = path@;
        let ghost value = state@;
        let position = self.position(&path);
        let mut loads: Vec<Load> = Vec::new();
        std::mem::swap(&mut loads, &mut self.loads);
        match position {
            Some(i) => {
                loads.set(i, Load { path, state });
                proof {
                    let after = loads@;
                    assert(distinct(after)) by {
                        assert forall|a: int, b: int| 0 <= a < b < after.len() implies (
                        #[trigger] after[a]).path@ != (#[trigger] after[b]).path@ by {
                            assert(after[a].path@ == before[a].path@);
                            assert(after[b].path@ == before[b].path@);
                        }
                    }
                    assert(states(after) =~= states(before).insert(key, value)) by {
                        assert forall|p: Seq<char>|
                            states(after).dom().contains(p) <==> #[trigger] states(
                                before,
                            ).insert(key, value).dom().contains(p) by {
                            if states(after).dom().contains(p) {
                                let j = choose|j: int| found(after, p, j);
                                assert(found(before, p, j));
                            }
                            if states(before).dom().contains(p) {
                                let j = choose|j: int| found(before, p, j);
                                assert(found(after, p, j));
                            }
                            assert(found(after, key, i as int));
                        }
                        assert forall|p: Seq<char>| #[trigger]
                            states(after).dom().contains(p) implies states(after)[p] == states(
                            before,
                        ).insert(key, value)[p] by {
                            let j = choose|j: int| found(after, p, j);
                            lemma_state_at(after, j);
                            if p != key {
                                assert(j != i);
                                lemma_state_at(before, j);
                            }
                        }
                    }
                }
            },
            None => {
                loads.push(Load { path, state });
                proof {
                    let after = loads@;
                    let last = before.len() as int;
                    assert(distinct(after)) by {
                        assert forall|a: int, b: int| 0 <= a < b < after.len() implies (
                        #[trigger] after[a]).path@ != (#[trigger] after[b]).path@ by {
                            assert(after[a] == before[a]);
                            if b < last {
                                assert(after[b] == before[b]);
                            } else {
                                assert(!found(before, key, a));
                            }
                        }
                    }
                    assert(states(after) =~= states(before).insert(key, value)) by {
                        assert forall|p: Seq<char>|
                            states(after).dom().contains(p) <==> #[trigger] states(
                                before,
                            ).insert(key, value).dom().contains(p) by {
                            if states(after).dom().contains(p) {
                                let j = choose|j: int| found(after, p, j);
                                if j < last {
                                    assert(found(before, p, j));
                                }
                            }
                            if states(before).dom().contains(p) {
                                let j = choose|j: int| found(before, p, j);
                                assert(found(after, p, j));
                            }
                            assert(found(after, key, last));
                        }
                        assert forall|p: Seq<char>| #[trigger]
                            states(after).dom().contains(p) implies states(after)[p] == states(
                            before,
                        ).insert(key, value)[p] by {
                            let j = choose|j: int| found(after, p, j);
                            lemma_state_at(after, j);
                            if p != key {
                                assert(j != last);
                                assert(after[j] == before[j]);
                                lemma_state_at(before, j);
                            }
                        }
                    }
                }
            },
        }
        self.loads = loads;
    }

    /// Records that the resource at the given path is being loaded. What
    /// was known of the path before is forgotten.
    pub fn start_loading(&mut self, path: &str)
        ensures
            final(self)@ == old(self)@.insert(path@, LoadView::Loading),
    {
        self.insert(path.to_owned(), LoadState::Loading);
    }

    /// Records how the load of the resource at the given path ended: with
    /// its bytes, or with the message of its failure.
    pub fn finish_loading(&mut self, path: &str, result: Result<Vec<u8>, String>)
        ensures
            final(self)@ == old(self)@.insert(path@, completed(result)),
    {
        let state = match result {
            Ok(bytes) => LoadState::Loaded(bytes),
            Err(message) => LoadState::Failed(message),
        };
        self.insert(path.to_owned(), state);
    }

    /// Whether some load has not completed.
    pub fn is_loading(&self) -> (b: bool)
        ensures
            b == pending(self@),
    {
        proof {
            use_type_invariant(self);
        }
        let mut i: usize = 0;
        while i < self.loads.len()
            invariant
                i <= self.loads.len(),
                distinct(self.loads@),
                forall|j: int| 0 <= j < i ==> !((#[trigger] self.loads@[j]).state@ is Loading),
            decreases self.loads.len() - i,
        {
            let loading = match &self.loads[i].state {
                LoadState::Loading => true,
                _ => false,
            };
            if loading {
                proof {
                    lemma_state_at(self.loads@, i as int);
                }
                return true;
            }
            i = i + 1;
        }
        proof {
            assert forall|path: Seq<char>| #[trigger] self@.dom().contains(path) implies !(
            self@[path] is Loading) by {
                let j = choose|j: int| found(self.loads@, path, j);
                lemma_state_at(self.loads@, j);
            }
        }
        false
    }

    /// Begins to wait for all loads: whatever their state, the caller sleeps
    /// once before it looks at them.
    pub fn wait_all(&self) -> (step: WaitStep)
        ensures
            step == (WaitStep::Sleep { millis: POLL_INTERVAL_MILLIS }),
    {
        WaitStep::Sleep { millis: POLL_INTERVAL_MILLIS }
    }

    /// Looks at the loads after a sleep: the caller sleeps on while some
    /// load has not completed, and is done once each has completed or
    /// failed.
    pub fn wait(&self) -> (step: WaitStep)
        ensures
            step == (if pending(self@) {
                WaitStep::Sleep { millis: POLL_INTERVAL_MILLIS }
            } else {
                WaitStep::Done
            }),
    {
        if self.is_loading() {
            WaitStep::Sleep { millis: POLL_INTERVAL_MILLIS }
        } else {
            WaitStep::Done
        }
    }

    /// The state of the load of the resource at the given path, if one was started.
    pub fn get(&self, path: &str) -> (r: Option<&LoadState>)
        ensures
            r is Some <==> self@.dom().contains(path@),
            r matches Some(state) ==> state@ == self@[path@],
    {
        proof {
            use_type_invariant(self);
        }
        let owned = path.to_owned();
        match self.position(&owned) {
            Some(i) => {
                proof {
                    lemma_state_at(self.loads@, i as int);
                }
                Some(&self.loads[i].state)
            },
            None => None,
        }
    }
}

} // verus!
