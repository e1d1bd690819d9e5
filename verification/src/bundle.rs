//! The idempotent lifecycle of the resource bundle.
//!
//! The cluster offers no transaction over the five objects, so the bundle
//! is created as five independent creates and compensated by five
//! independent deletes, and both directions treat the answer the server
//! gives for work already done — `AlreadyExists` on create, `NotFound` on
//! delete — as success. This module states that discipline exactly: a
//! model of the cluster as the set of object names that exist, the
//! transition each call makes on it, and the laws that make re-running an
//! upgrade safe.

use crate::resources::BundleNames;
use crate::text::{str_eq, string_views};
use vstd::prelude::*;
use vstd::string::*;

verus! {

/// How one API call against the cluster came back, reduced to what the
/// idempotency rule reads: success, a named API error, or any other
/// failure.
#[derive(Debug)]
pub enum ApiCallResult {
    Succeeded,
    /// The server refused with this reason, such as `AlreadyExists` or
    /// `NotFound`.
    ApiError(String),
    /// The call failed some other way (transport, authorisation, ...).
    OtherError(String),
}

/// True iff a create call's outcome counts as success: the object was
/// created, or it already existed.
pub open spec fn spec_create_ok(r: ApiCallResult) -> bool {
    match r {
        ApiCallResult::Succeeded => true,
        ApiCallResult::ApiError(reason) => reason@ == "AlreadyExists"@,
        ApiCallResult::OtherError(_) => false,
    }
}

/// Decides [`spec_create_ok`] for one create call.
pub fn create_outcome_ok(r: &ApiCallResult) -> (ok: bool)
    ensures
        ok == spec_create_ok(*r),
{
    match r {
        ApiCallResult::Succeeded => true,
        ApiCallResult::ApiError(reason) => str_eq(reason.as_str(), "AlreadyExists"),
        ApiCallResult::OtherError(_) => false,
    }
}

/// True iff a delete call's outcome counts as success: the object was
/// deleted, or it was not there to begin with.
pub open spec fn spec_delete_ok(r: ApiCallResult) -> bool {
    match r {
        ApiCallResult::Succeeded => true,
        ApiCallResult::ApiError(reason) => reason@ == "NotFound"@,
        ApiCallResult::OtherError(_) => false,
    }
}

/// Decides [`spec_delete_ok`] for one delete call.
pub fn delete_outcome_ok(r: &ApiCallResult) -> (ok: bool)
    ensures
        ok == spec_delete_ok(*r),
{
    match r {
        ApiCallResult::Succeeded => true,
        ApiCallResult::ApiError(reason) => str_eq(reason.as_str(), "NotFound"),
        ApiCallResult::OtherError(_) => false,
    }
}

/// A model of the cluster: the names of the bundle objects that exist.
pub struct ClusterModel {
    pub objects: Vec<String>,
}

/// The set of names that exist in the modelled cluster.
pub open spec fn objects_set(c: ClusterModel) -> Set<Seq<char>> {
    Set::new(|n: Seq<char>| string_views(c.objects@).contains(n))
}

/// True iff the model holds each name once.
pub open spec fn distinct_names(c: ClusterModel) -> bool {
    forall|i: int, j: int|
        0 <= i < j < c.objects@.len() ==> string_views(c.objects@)[i] != string_views(
            c.objects@,
        )[j]
}

/// The five names of one bundle.
pub open spec fn bundle_name_set(b: BundleNames) -> Set<Seq<char>> {
    set![b.service_account@, b.cluster_role@, b.cluster_role_binding@, b.config_map@, b.job@]
}

impl ClusterModel {
    /// An empty cluster.
    pub fn new() -> (r: ClusterModel)
        ensures
            objects_set(r) == Set::<Seq<char>>::empty(),
            distinct_names(r),
    {
        let r = ClusterModel { objects: Vec::new() };
        proof {
            assert(objects_set(r) =~= Set::<Seq<char>>::empty());
        }
        r
    }

    /// One idempotent create: afterwards the name exists; the result says
    /// whether the object was created now (`Succeeded`) or had already
    /// existed (`AlreadyExists`), and either way the call counts as
    /// success.
    pub fn apply_create(&mut self, name: &str) -> (r: ApiCallResult)
        requires
            distinct_names(*old(self)),
        ensures
            distinct_names(*final(self)),
            objects_set(*final(self)) == objects_set(*old(self)).insert(name@),
            spec_create_ok(r),
            r is Succeeded <==> !objects_set(*old(self)).contains(name@),
    {
        if crate::text::contains_string(&self.objects, name) {
            proof {
                assert(objects_set(*self) =~= objects_set(*self).insert(name@));
            }
            ApiCallResult::ApiError(String::from_str("AlreadyExists"))
        } else {
            let ghost old_model = *self;
            self.objects.push(String::from_str(name));
            proof {
                let vs = string_views(self.objects@);
                let old_vs = string_views(old_model.objects@);
                assert(vs.len() == old_vs.len() + 1);
                assert(vs[old_vs.len() as int] == name@);
                assert(forall|k: int| 0 <= k < old_vs.len() ==> vs[k] == old_vs[k]);
                assert forall|n: Seq<char>| vs.contains(n) <==> (old_vs.contains(n) || n
                    == name@) by {
                    if vs.contains(n) {
                        let w = choose|w: int| 0 <= w < vs.len() && vs[w] == n;
                        if w < old_vs.len() {
                            assert(old_vs.contains(n));
                        }
                    }
                    if old_vs.contains(n) {
                        let w = choose|w: int| 0 <= w < old_vs.len() && old_vs[w] == n;
                        assert(vs[w] == n);
                    }
                }
                assert(objects_set(*self) =~= objects_set(old_model).insert(name@));
                assert forall|i2: int, j2: int| 0 <= i2 < j2 < vs.len() implies vs[i2]
                    != vs[j2] by {
                    if j2 == old_vs.len() {
                        assert(vs[j2] == name@);
                        assert(old_vs.contains(old_vs[i2]));
                    }
                }
            }
            ApiCallResult::Succeeded
        }
    }

    /// One idempotent delete: afterwards the name is gone; the result says
    /// whether the object was deleted now (`Succeeded`) or had not been
    /// there (`NotFound`), and either way the call counts as success.
    pub fn apply_delete(&mut self, name: &str) -> (r: ApiCallResult)
        requires
            distinct_names(*old(self)),
        ensures
            distinct_names(*final(self)),
            objects_set(*final(self)) == objects_set(*old(self)).remove(name@),
            spec_delete_ok(r),
            r is Succeeded <==> objects_set(*old(self)).contains(name@),
    {
        let mut i: usize = 0;
        while i < self.objects.len()
            invariant
                i <= self.objects@.len(),
                *self == *old(self),
                distinct_names(*self),
                forall|j: int| 0 <= j < i ==> string_views(self.objects@)[j] != name@,
            decreases self.objects@.len() - i,
        {
            if str_eq(self.objects[i].as_str(), name) {
                let ghost old_objects = self.objects@;
                let ghost vs = string_views(old_objects);
                proof {
                    assert(vs[i as int] == name@);
                }
                self.objects.remove(i);
                proof {
                    assert(self.objects@ == old_objects.remove(i as int));
                    assert(self.objects@.len() == old_objects.len() - 1);
                    assert(forall|k: int|
                        0 <= k < i ==> #[trigger] self.objects@[k] == old_objects[k]);
                    assert(forall|k: int|
                        i <= k < self.objects@.len() ==> #[trigger] self.objects@[k]
                            == old_objects[k + 1]);
                    let new_vs = string_views(self.objects@);
                    assert(new_vs.len() == vs.len() - 1);
                    assert(forall|k: int| 0 <= k < i ==> #[trigger] new_vs[k] == vs[k]);
                    assert(forall|k: int|
                        i <= k < new_vs.len() ==> #[trigger] new_vs[k] == vs[k + 1]);
                    assert forall|n: Seq<char>|
                        new_vs.contains(n) <==> (vs.contains(n) && n != name@) by {
                        if new_vs.contains(n) {
                            let w = choose|w: int| 0 <= w < new_vs.len() && new_vs[w] == n;
                            if w < i {
                                assert(vs[w] == n);
                            } else {
                                assert(vs[w + 1] == n);
                            }
                            assert(vs.contains(n));
                            assert(n != name@);
                        }
                        if vs.contains(n) && n != name@ {
                            let w = choose|w: int| 0 <= w < vs.len() && vs[w] == n;
                            if w < i {
                                assert(new_vs[w] == n);
                            } else {
                                assert(w != i);
                                assert(new_vs[w - 1] == n);
                            }
                            assert(new_vs.contains(n));
                        }
                    }
                    assert(objects_set(*self) =~= objects_set(*old(self)).remove(name@));
                    assert forall|i2: int, j2: int|
                        0 <= i2 < j2 < new_vs.len() implies new_vs[i2] != new_vs[j2] by {
                        if j2 < i {
                        } else if i2 < i {
                            assert(new_vs[i2] == vs[i2] && new_vs[j2] == vs[j2 + 1]);
                        } else {
                            assert(new_vs[i2] == vs[i2 + 1] && new_vs[j2] == vs[j2 + 1]);
                        }
                    }
                }
                return ApiCallResult::Succeeded;
            }
            i = i + 1;
        }
        proof {
            assert(!string_views(self.objects@).contains(name@)) by {
                if string_views(self.objects@).contains(name@) {
                    let w = choose|w: int|
                        0 <= w < string_views(self.objects@).len() && string_views(
                            self.objects@,
                        )[w] == name@;
                }
            }
            assert(objects_set(*self) =~= objects_set(*old(self)).remove(name@));
        }
        ApiCallResult::ApiError(String::from_str("NotFound"))
    }

    /// Creates the whole bundle: afterwards all five names exist, and no
    /// outcome of the five creates is an error.
    pub fn create_bundle(&mut self, names: &BundleNames)
        requires
            distinct_names(*old(self)),
        ensures
            distinct_names(*final(self)),
            objects_set(*final(self)) == objects_set(*old(self)).union(bundle_name_set(*names)),
    {
        let ghost start = objects_set(*self);
        self.apply_create(names.service_account.as_str());
        self.apply_create(names.cluster_role.as_str());
        self.apply_create(names.cluster_role_binding.as_str());
        self.apply_create(names.config_map.as_str());
        self.apply_create(names.job.as_str());
        proof {
            assert(objects_set(*self) =~= start.union(bundle_name_set(*names)));
        }
    }

    /// Deletes the whole bundle: afterwards none of the five names exist,
    /// everything else stays, and no outcome of the five deletes is an
    /// error.
    pub fn delete_bundle(&mut self, names: &BundleNames)
        requires
            distinct_names(*old(self)),
        ensures
            distinct_names(*final(self)),
            objects_set(*final(self)) == objects_set(*old(self)).difference(
                bundle_name_set(*names),
            ),
    {
        let ghost start = objects_set(*self);
        self.apply_delete(names.job.as_str());
        self.apply_delete(names.config_map.as_str());
        self.apply_delete(names.cluster_role.as_str());
        self.apply_delete(names.cluster_role_binding.as_str());
        self.apply_delete(names.service_account.as_str());
        proof {
            assert(objects_set(*self) =~= start.difference(bundle_name_set(*names)));
        }
    }
}

/// Creating a bundle is idempotent: a second create of the same bundle
/// leaves the cluster exactly as the first left it, so re-running an
/// upgrade makes no duplicate objects (and, by the contracts above, no
/// create outcome is an error).
pub proof fn lemma_create_bundle_idempotent(s: Set<Seq<char>>, b: Set<Seq<char>>)
    ensures
        s.union(b).union(b) == s.union(b),
{
    assert(s.union(b).union(b) =~= s.union(b));
}

/// Rolling back deletes exactly the bundle: a name survives the delete if
/// and only if it existed and is not one of the bundle's five; deleting a
/// bundle none of whose objects exist changes nothing (and, by the
/// contracts above, no delete outcome is an error).
pub proof fn lemma_delete_bundle_exact(s: Set<Seq<char>>, b: Set<Seq<char>>)
    ensures
        forall|n: Seq<char>| s.difference(b).contains(n) <==> (s.contains(n) && !b.contains(n)),
        s.disjoint(b) ==> s.difference(b) == s,
{
    if s.disjoint(b) {
        assert(s.difference(b) =~= s);
    }
}

} // verus!
