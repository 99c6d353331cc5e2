//! Finding a profile by its path, and looking a setting up along that path.

use vstd::prelude::*;
use super::tree::{segments, TelescopeConfig};

verus! {

/// Where a profile path leaves the tree.
#[derive(Debug)]
pub struct MissingProfile {
    /// The segments that were found, in order: the path up to the first
    /// segment that names no profile.
    pub consumed: Vec<String>,
    /// The first segment that names no profile of the scope reached so far.
    pub missing_segment: String,
}

/// The last value that `values` holds, if it holds any.
pub open spec fn last_defined<T>(values: Seq<Option<T>>) -> Option<T>
    decreases values.len(),
{
    if values.len() == 0 {
        None
    } else if values.last() is Some {
        values.last()
    } else {
        last_defined(values.drop_last())
    }
}

/// `outs` is what `extractor` can have returned on `scopes`, scope by scope.
pub open spec fn reads<T, F: Fn(&TelescopeConfig) -> Option<T>>(
    extractor: F,
    scopes: Seq<TelescopeConfig>,
    outs: Seq<Option<T>>,
) -> bool {
    &&& outs.len() == scopes.len()
    &&& forall|depth: int|
        0 <= depth < scopes.len() ==> call_ensures(extractor, (&scopes[depth],), #[trigger] outs[depth])
}

/// `extractor` is a function of the scope: whatever it returns on a scope is
/// `get` of that scope.
pub open spec fn computes<T, F: Fn(&TelescopeConfig) -> Option<T>>(
    extractor: F,
    get: spec_fn(TelescopeConfig) -> Option<T>,
) -> bool {
    forall|scope: TelescopeConfig, out: Option<T>| #[trigger]
        call_ensures(extractor, (&scope,), out) ==> out == get(scope)
}

/// The first `len` strings of `path`, copied.
fn copy_prefix(path: &[String], len: usize) -> (prefix: Vec<String>)
    requires
        len <= path@.len(),
    ensures
        prefix@.len() == len,
        segments(prefix@) == segments(path@).take(len as int),
{
    let mut prefix: Vec<String> = Vec::new();
    let mut i: usize = 0;
    while i < len
        invariant
            i <= len <= path@.len(),
            prefix@.len() == i,
            forall|k: int| 0 <= k < i ==> prefix@[k]@ == path@[k]@,
        decreases len - i,
    {
        prefix.push(path[i].clone());
        i += 1;
    }
    prefix
}

/// Where `values[at]` is defined and nothing after it is, it is the last
/// defined value.
pub proof fn lemma_last_defined_at<T>(values: Seq<Option<T>>, at: int)
    requires
        0 <= at < values.len(),
        values[at] is Some,
        forall|later: int| at < later < values.len() ==> values[later] is None,
    ensures
        last_defined(values) == values[at],
    decreases values.len(),
{
    if at < values.len() - 1 {
        lemma_last_defined_at(values.drop_last(), at);
    }
}

/// There is no last defined value exactly where no value is defined.
pub proof fn lemma_last_defined_none<T>(values: Seq<Option<T>>)
    ensures
        last_defined(values) is None <==> forall|i: int|
            0 <= i < values.len() ==> values[i] is None,
    decreases values.len(),
{
    if values.len() > 0 {
        lemma_last_defined_none(values.drop_last());
        if values.last() is None && last_defined(values.drop_last()) is None {
            assert forall|i: int| 0 <= i < values.len() implies values[i] is None by {
                if i < values.len() - 1 {
                    assert(values.drop_last()[i] is None);
                }
            }
        }
        if forall|i: int| 0 <= i < values.len() ==> values[i] is None {
            assert forall|i: int| 0 <= i < values.drop_last().len() implies values.drop_last()[i]
                is None by {
                assert(values[i] is None);
            }
        }
    }
}

/// The last defined value of a sequence with one more value in front is the
/// last defined value of the sequence, or else the value in front.
pub proof fn lemma_last_defined_after<T>(front: Option<T>, values: Seq<Option<T>>)
    ensures
        last_defined(seq![front] + values) == match last_defined(values) {
            Some(value) => Some(value),
            None => front,
        },
    decreases values.len(),
{
    let all = seq![front] + values;
    if values.len() == 0 {
        assert(last_defined(all.drop_last()) is None);
    } else {
        assert(all.drop_last() =~= seq![front] + values.drop_last());
        lemma_last_defined_after(front, values.drop_last());
    }
}

impl TelescopeConfig {
    /// `path` leaves the tree at `depth`: its first `depth` segments lead to
    /// a scope, and that scope has no profile called `path[depth]`.
    pub open spec fn breaks_at(self, path: Seq<Seq<char>>, depth: int) -> bool {
        &&& 0 <= depth < path.len()
        &&& self.has_path(path.take(depth))
        &&& self.scope_at(path, depth).child(path[depth]) is None
    }

    /// The value of a setting for the profile that `path` selects: the value
    /// that `get` reads from the deepest scope on the path on which it reads
    /// one. Scopes off the path play no part.
    pub open spec fn resolve<T>(
        self,
        path: Seq<Seq<char>>,
        get: spec_fn(TelescopeConfig) -> Option<T>,
    ) -> Option<T> {
        last_defined(self.scopes_on(path).map_values(get))
    }

    /// `value` is what a lookup along `path` with `extractor` can yield: the
    /// last value that `extractor` returned, asked on every scope of the
    /// path from this one down to the selected profile.
    pub open spec fn finds<T, F: Fn(&TelescopeConfig) -> Option<T>>(
        self,
        path: Seq<Seq<char>>,
        extractor: F,
        value: Option<T>,
    ) -> bool {
        exists|outs: Seq<Option<T>>|
            reads(extractor, self.scopes_on(path), outs) && value == last_defined(outs)
    }

    /// Walks `path` from this scope, profile by profile, and returns the
    /// scope it selects. Where a segment names no profile of the scope
    /// reached so far, the walk stops there and reports that segment and the
    /// segments before it.
    pub fn find_profile(&self, path: &[String]) -> (found: Result<&TelescopeConfig, MissingProfile>)
        ensures
            found is Ok <==> self.has_path(segments(path@)),
            match found {
                Ok(scope) => self.descend(segments(path@)) == Some(*scope),
                Err(missing) => {
                    &&& self.breaks_at(segments(path@), missing.consumed@.len() as int)
                    &&& segments(missing.consumed@) == segments(path@).take(
                        missing.consumed@.len() as int,
                    )
                    &&& missing.missing_segment@ == segments(path@)[missing.consumed@.len() as int]
                },
            },
    {
        let ghost names = segments(path@);
        let mut scope = self;
        let mut depth: usize = 0;
        while depth < path.len()
            invariant
                depth <= path@.len(),
                names == segments(path@),
                self.descend(names.take(depth as int)) == Some(*scope),
            decreases path@.len() - depth,
        {
            match scope.get_profile(&path[depth]) {
                Some(next) => {
                    assert(names.take(depth + 1).drop_last() =~= names.take(depth as int));
                    scope = next;
                    depth += 1;
                },
                None => {
                    proof {
                        self.lemma_break_is_final(names, depth as int);
                    }
                    return Err(
                        MissingProfile {
                            consumed: copy_prefix(path, depth),
                            missing_segment: path[depth].clone(),
                        },
                    );
                },
            }
        }
        assert(names.take(depth as int) =~= names);
        Ok(scope)
    }

    /// Looks a setting up for the profile that `profile_slice` selects.
    ///
    /// `extractor` reads the setting from one scope. It is asked on every
    /// scope that the path passes through, and the answer of the deepest
    /// scope that gave one is returned: a profile overrides its ancestors,
    /// the root supplies the default, and the result is `None` only where no
    /// scope on the path sets the value. The path is taken to be valid.
    pub fn reverse_lookup<T, F: Fn(&TelescopeConfig) -> Option<T>>(
        &self,
        profile_slice: &[String],
        extractor: F,
    ) -> (value: Option<T>)
        requires
            self.has_path(segments(profile_slice@)),
            forall|depth: int|
                0 <= depth <= profile_slice@.len() ==> call_requires(
                    extractor,
                    (&#[trigger] self.scope_at(segments(profile_slice@), depth),),
                ),
        ensures
            self.finds(segments(profile_slice@), extractor, value),
            forall|get: spec_fn(TelescopeConfig) -> Option<T>| #[trigger]
                computes(extractor, get) ==> value == self.resolve(segments(profile_slice@), get),
    {
        let ghost names = segments(profile_slice@);
        let ghost scopes = self.scopes_on(names);
        assert(self.scope_at(names, 0) == *self);
        let mut scope = self;
        let mut value = extractor(scope);
        let ghost mut outs: Seq<Option<T>> = seq![value];
        assert(last_defined(outs.drop_last()) is None);
        let mut depth: usize = 0;
        while depth < profile_slice.len()
            invariant
                depth <= profile_slice@.len(),
                names == segments(profile_slice@),
                scopes == self.scopes_on(names),
                self.has_path(names),
                forall|d: int|
                    0 <= d <= profile_slice@.len() ==> call_requires(
                        extractor,
                        (&#[trigger] self.scope_at(names, d),),
                    ),
                *scope == self.scope_at(names, depth as int),
                reads(extractor, scopes.take(depth + 1), outs),
                value == last_defined(outs),
            decreases profile_slice@.len() - depth,
        {
            proof {
                self.lemma_prefixes_exist(names, depth + 1);
                assert(names.take(depth + 1).drop_last() =~= names.take(depth as int));
            }
            let next = scope.get_profile(&profile_slice[depth]);
            scope = next.unwrap();
            depth += 1;
            let own = extractor(scope);
            proof {
                let before = outs;
                outs = outs.push(own);
                assert(outs.drop_last() =~= before);
            }
            if own.is_some() {
                value = own;
            }
        }
        assert forall|get: spec_fn(TelescopeConfig) -> Option<T>| #[trigger]
            computes(extractor, get) implies value == self.resolve(names, get) by {
            self.lemma_lookup_resolves(names, extractor, get, outs);
        }
        value
    }

    /// Where the accessor is a function of the scope, what it read along the
    /// path gives the setting's resolved value.
    pub proof fn lemma_lookup_resolves<T, F: Fn(&TelescopeConfig) -> Option<T>>(
        self,
        path: Seq<Seq<char>>,
        extractor: F,
        get: spec_fn(TelescopeConfig) -> Option<T>,
        outs: Seq<Option<T>>,
    )
        requires
            computes(extractor, get),
            reads(extractor, self.scopes_on(path), outs),
        ensures
            last_defined(outs) == self.resolve(path, get),
    {
        assert(outs =~= self.scopes_on(path).map_values(get));
    }

    /// A lookup has one outcome: with an accessor that is a function of the
    /// scope, two lookups along the same path of the same tree yield the
    /// same value, the resolved one.
    pub proof fn law_lookup_is_determined<T, F: Fn(&TelescopeConfig) -> Option<T>>(
        self,
        path: Seq<Seq<char>>,
        extractor: F,
        get: spec_fn(TelescopeConfig) -> Option<T>,
        first: Option<T>,
        second: Option<T>,
    )
        requires
            computes(extractor, get),
            self.finds(path, extractor, first),
            self.finds(path, extractor, second),
        ensures
            first == second,
            first == self.resolve(path, get),
    {
        let outs = choose|outs: Seq<Option<T>>|
            reads(extractor, self.scopes_on(path), outs) && first == last_defined(outs);
        self.lemma_lookup_resolves(path, extractor, get, outs);
        let others = choose|outs: Seq<Option<T>>|
            reads(extractor, self.scopes_on(path), outs) && second == last_defined(outs);
        self.lemma_lookup_resolves(path, extractor, get, others);
    }

    /// The selected profile wins: where the scope that `path` selects sets
    /// the value, that is the resolved value, whatever its ancestors set.
    pub proof fn law_selected_scope_wins<T>(
        self,
        path: Seq<Seq<char>>,
        get: spec_fn(TelescopeConfig) -> Option<T>,
    )
        requires
            self.has_path(path),
            get(self.descend(path).unwrap()) is Some,
        ensures
            self.resolve(path, get) == get(self.descend(path).unwrap()),
    {
        assert(path.take(path.len() as int) =~= path);
        self.law_nearest_scope_wins(path, get, path.len() as int);
    }

    /// The nearest definition wins: where the scope at `depth` on the path
    /// sets the value and no scope deeper on the path does, the resolved
    /// value is the one of the scope at `depth`, whatever the scopes above
    /// it set.
    pub proof fn law_nearest_scope_wins<T>(
        self,
        path: Seq<Seq<char>>,
        get: spec_fn(TelescopeConfig) -> Option<T>,
        depth: int,
    )
        requires
            self.has_path(path),
            0 <= depth <= path.len(),
            get(self.scope_at(path, depth)) is Some,
            forall|deeper: int|
                depth < deeper <= path.len() ==> get(#[trigger] self.scope_at(path, deeper)) is None,
        ensures
            self.resolve(path, get) == get(self.scope_at(path, depth)),
    {
        let values = self.scopes_on(path).map_values(get);
        assert forall|deeper: int| depth < deeper < values.len() implies values[deeper] is None by {
            assert(values[deeper] == get(self.scope_at(path, deeper)));
        }
        lemma_last_defined_at(values, depth);
    }

    /// A value is unresolved exactly where no scope on the path sets it.
    pub proof fn law_unresolved_means_unset<T>(
        self,
        path: Seq<Seq<char>>,
        get: spec_fn(TelescopeConfig) -> Option<T>,
    )
        requires
            self.has_path(path),
        ensures
            self.resolve(path, get) is None <==> forall|depth: int|
                0 <= depth <= path.len() ==> get(#[trigger] self.scope_at(path, depth)) is None,
    {
        let values = self.scopes_on(path).map_values(get);
        lemma_last_defined_none(values);
        if self.resolve(path, get) is None {
            assert forall|depth: int| 0 <= depth <= path.len() implies get(
                #[trigger] self.scope_at(path, depth),
            ) is None by {
                assert(values[depth] == get(self.scope_at(path, depth)));
            }
        }
        if forall|depth: int|
            0 <= depth <= path.len() ==> get(#[trigger] self.scope_at(path, depth)) is None {
            assert forall|depth: int| 0 <= depth < values.len() implies values[depth] is None by {
                assert(values[depth] == get(self.scope_at(path, depth)));
            }
        }
    }

    /// The empty path resolves every value to what the root itself sets.
    pub proof fn law_empty_path_reads_root<T>(self, get: spec_fn(TelescopeConfig) -> Option<T>)
        ensures
            self.has_path(Seq::empty()),
            self.resolve(Seq::empty(), get) == get(self),
    {
        let path = Seq::<Seq<char>>::empty();
        let values = self.scopes_on(path).map_values(get);
        assert(last_defined(values.drop_last()) is None);
    }

    /// A path leaves the tree at one depth only: at the first of its
    /// segments that names no profile, whatever comes after that segment.
    pub proof fn law_break_is_unique(self, path: Seq<Seq<char>>, first: int, second: int)
        requires
            self.breaks_at(path, first),
            self.breaks_at(path, second),
        ensures
            first == second,
    {
        if first < second {
            self.lemma_prefixes_exist(path.take(second), first + 1);
            assert(path.take(second).take(first + 1) =~= path.take(first + 1));
            assert(path.take(first + 1).drop_last() =~= path.take(first));
        }
        if second < first {
            self.lemma_prefixes_exist(path.take(first), second + 1);
            assert(path.take(first).take(second + 1) =~= path.take(second + 1));
            assert(path.take(second + 1).drop_last() =~= path.take(second));
        }
    }

    /// A path that leads nowhere leaves the tree at one of its segments.
    pub proof fn law_invalid_path_breaks(self, path: Seq<Seq<char>>)
        requires
            !self.has_path(path),
        ensures
            exists|depth: int| self.breaks_at(path, depth),
        decreases path.len(),
    {
        let shorter = path.drop_last();
        let last = path.len() - 1;
        if self.has_path(shorter) {
            assert(self.breaks_at(path, last));
        } else {
            self.law_invalid_path_breaks(shorter);
            let depth = choose|depth: int| self.breaks_at(shorter, depth);
            assert(shorter.take(depth) =~= path.take(depth));
            assert(self.breaks_at(path, depth));
        }
    }

    /// A walk from this scope is a step into the first profile named, then
    /// the walk of the rest from there.
    pub proof fn lemma_descend_steps_first(self, path: Seq<Seq<char>>)
        requires
            path.len() > 0,
        ensures
            self.descend(path) == match self.child(path.first()) {
                Some(scope) => scope.descend(path.drop_first()),
                None => None,
            },
        decreases path.len(),
    {
        if path.len() == 1 {
            assert(path.drop_last() =~= Seq::<Seq<char>>::empty());
            assert(path.drop_first() =~= Seq::<Seq<char>>::empty());
        } else {
            self.lemma_descend_steps_first(path.drop_last());
            assert(path.drop_last().drop_first() =~= path.drop_first().drop_last());
        }
    }

    /// Resolution unwinds from the selected profile towards the root: on a
    /// path of at least one segment, the value resolved from this scope is
    /// the value resolved from the first profile named along the rest of
    /// the path, and this scope's own value only where that is none.
    pub proof fn law_resolution_unwinds<T>(
        self,
        path: Seq<Seq<char>>,
        get: spec_fn(TelescopeConfig) -> Option<T>,
    )
        requires
            path.len() > 0,
            self.has_path(path),
        ensures
            self.child(path.first()) is Some,
            self.child(path.first()).unwrap().has_path(path.drop_first()),
            self.resolve(path, get) == match self.child(path.first()).unwrap().resolve(
                path.drop_first(),
                get,
            ) {
                Some(value) => Some(value),
                None => get(self),
            },
    {
        self.lemma_descend_steps_first(path);
        let child = self.child(path.first()).unwrap();
        let rest = path.drop_first();
        let below = child.scopes_on(rest).map_values(get);
        let all = self.scopes_on(path).map_values(get);
        assert(all =~= seq![get(self)] + below) by {
            assert forall|depth: int| 1 <= depth <= path.len() implies all[depth] == below[depth
                - 1] by {
                self.lemma_descend_steps_first(path.take(depth));
                assert(path.take(depth).drop_first() =~= rest.take(depth - 1));
            }
        }
        lemma_last_defined_after(get(self), below);
    }

    /// Profiles off the path are never consulted: two scopes that set the same
    /// value themselves and hold the same profile under the path's first
    /// name resolve the value alike, whatever their other profiles hold.
    pub proof fn law_off_path_profiles_are_ignored<T>(
        self,
        other: TelescopeConfig,
        path: Seq<Seq<char>>,
        get: spec_fn(TelescopeConfig) -> Option<T>,
    )
        requires
            path.len() > 0,
            get(self) == get(other),
            self.child(path.first()) == other.child(path.first()),
        ensures
            self.has_path(path) == other.has_path(path),
            self.has_path(path) ==> self.resolve(path, get) == other.resolve(path, get),
    {
        self.lemma_descend_steps_first(path);
        other.lemma_descend_steps_first(path);
        if self.has_path(path) {
            let mine = self.scopes_on(path).map_values(get);
            let theirs = other.scopes_on(path).map_values(get);
            assert forall|depth: int| 0 <= depth <= path.len() implies mine[depth]
                == theirs[depth] by {
                if depth > 0 {
                    self.lemma_descend_steps_first(path.take(depth));
                    other.lemma_descend_steps_first(path.take(depth));
                }
            }
            assert(mine =~= theirs);
        }
    }

    /// A path that leaves the tree leads nowhere.
    pub proof fn lemma_break_is_final(self, path: Seq<Seq<char>>, depth: int)
        requires
            self.breaks_at(path, depth),
        ensures
            !self.has_path(path),
    {
        if self.has_path(path) {
            self.lemma_prefixes_exist(path, depth + 1);
            assert(path.take(depth + 1).drop_last() =~= path.take(depth));
        }
    }
}

} // verus!
