//! The rule store: rules in definition order, replaced only as a whole.
use vstd::prelude::*;
use crate::import::{ImportError, expand_all, all_valid, import_rules, RouterConfig, first_invalid};
use crate::matcher::{has_match, is_first_match};
use crate::models::{InsertMock, Mock, RuleModel, models};

verus! {

/// The largest number of rules a store holds: identifiers are positive `i32`.
pub const MAX_RULES: usize = 2147483647;

/// The enabled rules of a sequence, in order.
pub open spec fn enabled_only(rules: Seq<RuleModel>) -> Seq<RuleModel>
    decreases rules.len(),
{
    if rules.len() == 0 {
        Seq::empty()
    } else if rules.last().enabled {
        enabled_only(rules.drop_last()).push(rules.last())
    } else {
        enabled_only(rules.drop_last())
    }
}

/// Rules kept in the order in which they were defined; rule `i` has
/// identifier `i + 1`.
pub struct MockStore {
    rows: Vec<Mock>,
}

impl View for MockStore {
    type V = Seq<RuleModel>;

    closed spec fn view(&self) -> Seq<RuleModel> {
        models(self.rows@)
    }
}

impl MockStore {
    /// Identifiers follow the order of the rules, from 1.
    pub closed spec fn wf(&self) -> bool {
        &&& self.rows@.len() <= MAX_RULES
        &&& forall|i: int| 0 <= i < self.rows@.len() ==> (#[trigger] self.rows@[i]).id == i + 1
    }

    /// An empty store.
    pub fn new() -> (r: MockStore)
        ensures
            r.wf(),
            r@.len() == 0,
    {
        let r = MockStore { rows: Vec::new() };
        assert(r@ =~= Seq::<RuleModel>::empty());
        r
    }

    /// All stored rules, in definition order.
    pub fn rows(&self) -> (r: &Vec<Mock>)
        ensures
            models(r@) == self@,
    {
        &self.rows
    }

    /// The identifier of rule `i`.
    pub fn id_at(&self, i: usize) -> (r: i32)
        requires
            self.wf(),
            i < self@.len(),
        ensures
            r == i + 1,
    {
        self.rows[i].id
    }

    /// The enabled rules, in definition order.
    pub fn list_enabled(&self) -> (r: Vec<Mock>)
        ensures
            models(r@) == enabled_only(self@),
    {
        let mut out: Vec<Mock> = Vec::new();
        let mut i: usize = 0;
        while i < self.rows.len()
            invariant
                i <= self.rows@.len(),
                models(out@) == enabled_only(models(self.rows@).subrange(0, i as int)),
            decreases self.rows@.len() - i,
        {
            let ghost prev = models(self.rows@).subrange(0, i as int);
            let ghost next = models(self.rows@).subrange(0, i + 1);
            assert(next.drop_last() =~= prev);
            if self.rows[i].is_enable {
                let m = self.rows[i].duplicate();
                out.push(m);
                assert(models(out@) =~= enabled_only(prev).push(self.rows@[i as int]@));
            }
            i = i + 1;
        }
        assert(models(self.rows@).subrange(0, self.rows@.len() as int) =~= self@);
        out
    }

    /// The first rule, in definition order, that accepts a request with this
    /// method and path.
    pub fn find(&self, method: &str, path: &str) -> (r: Option<Mock>)
        requires
            self.wf(),
        ensures
            match r {
                Some(m) => exists|k: int|
                    is_first_match(self@, k, method@, path@) && m@ == self@[k] && m.id == k + 1,
                None => !has_match(self@, method@, path@),
            },
    {
        let r = Mock::find_by_method_and_url(method, path, &self.rows);
        proof {
            if r is Some {
                let k = choose|k: int|
                    is_first_match(models(self.rows@), k, method@, path@) && r->Some_0@
                        == self.rows@[k]@ && r->Some_0.id == self.rows@[k].id;
                assert(self@[k] == self.rows@[k]@);
            }
        }
        r
    }

    /// Replaces every rule by `rules`, numbered from 1 in order. When they do
    /// not fit, the store is left as it was.
    pub fn replace_all(&mut self, rules: Vec<InsertMock>) -> (r: Result<(), ImportError>)
        requires
            old(self).wf(),
        ensures
            final(self).wf(),
            r is Ok <==> rules@.len() <= MAX_RULES,
            r is Ok ==> final(self)@ == rules@.map_values(|m: InsertMock| m@),
            r is Err ==> final(self)@ == old(self)@ && r matches Err(ImportError::StoreFull),
    {
        if rules.len() > MAX_RULES {
            return Err(ImportError::StoreFull);
        }
        let ghost src = rules@;
        let mut fresh: Vec<Mock> = Vec::new();
        let mut rest = rules;
        let mut taken: Vec<InsertMock> = Vec::new();
        // Rules are moved out from the back; `fresh` is filled afterwards.
        while rest.len() > 0
            invariant
                rest@ + taken@.reverse() == src,
            decreases rest@.len(),
        {
            let m = rest.pop().unwrap();
            proof {
                assert(taken@.push(m).reverse() =~= seq![m] + taken@.reverse());
            }
            taken.push(m);
            proof {
                assert(rest@ + taken@.reverse() =~= src);
            }
        }
        assert(taken@.reverse() =~= src);
        let n = taken.len();
        let mut i: usize = 0;
        while taken.len() > 0
            invariant
                n == src.len(),
                n <= MAX_RULES,
                i + taken@.len() == n,
                taken@.reverse() == src.subrange(i as int, n as int),
                fresh@.len() == i,
                forall|j: int| 0 <= j < i ==> (#[trigger] fresh@[j])@ == src[j]@ && fresh@[j].id == j + 1,
            decreases taken@.len(),
        {
            let ghost t_old = taken@;
            let m = taken.pop().unwrap();
            proof {
                assert(taken@ =~= t_old.drop_last());
                assert(t_old.reverse()[0] == m);
                assert(taken@.reverse() =~= t_old.reverse().drop_first());
                assert(src.subrange(i as int, n as int).drop_first() =~= src.subrange(i + 1, n as int));
            }
            let row = m.with_id((i + 1) as i32);
            fresh.push(row);
            i = i + 1;
        }
        self.rows = fresh;
        assert(self@ =~= src.map_values(|m: InsertMock| m@));
        Ok(())
    }
}

/// Expands the declarations and makes their rules the store's whole
/// content, in order. When a declaration is refused or the rules do not fit,
/// the store is left as it was.
pub fn import_config(routes: &Vec<RouterConfig>, store: &mut MockStore) -> (r: Result<(), ImportError>)
    requires
        old(store).wf(),
    ensures
        final(store).wf(),
        r is Ok <==> all_valid(routes@) && expand_all(routes@).len() <= MAX_RULES,
        r is Ok ==> final(store)@ == expand_all(routes@),
        r is Err ==> final(store)@ == old(store)@,
        r matches Err(ImportError::EmptyFile(i)) ==> first_invalid(routes@, i as int)
            && routes@[i as int].file@.len() == 0,
        r matches Err(ImportError::EmptyMethod(i)) ==> first_invalid(routes@, i as int)
            && routes@[i as int].file@.len() > 0,
        r matches Err(ImportError::StoreFull) ==> all_valid(routes@) && expand_all(routes@).len()
            > MAX_RULES,
{
    let rules = match import_rules(routes) {
        Ok(v) => v,
        Err(e) => {
            return Err(e);
        },
    };
    store.replace_all(rules)
}

} // verus!
