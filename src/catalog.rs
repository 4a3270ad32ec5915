use vstd::prelude::*;

verus! {

/// The type of a metric. Histogram bucket upper bounds are given in millionths of
/// the metric's unit (`1_000_000` stands for `1.0`).
#[derive(Clone, Debug)]
pub enum MetricKind {
    Gauge,
    Counter,
    Histogram { bounds_millionths: Vec<u64> },
}

/// The declaration of one metric: its unique name, its help text and its type.
#[derive(Clone, Debug)]
pub struct MetricDecl {
    pub name: String,
    pub help: String,
    pub kind: MetricKind,
}

/// The mathematical content of a `MetricKind`.
pub enum KindView {
    Gauge,
    Counter,
    Histogram { bounds_millionths: Seq<u64> },
}

/// The mathematical content of a `MetricDecl`.
pub struct DeclView {
    pub name: Seq<char>,
    pub help: Seq<char>,
    pub kind: KindView,
}

impl View for MetricKind {
    type V = KindView;

    open spec fn view(&self) -> KindView {
        match self {
            MetricKind::Gauge => KindView::Gauge,
            MetricKind::Counter => KindView::Counter,
            MetricKind::Histogram { bounds_millionths } => KindView::Histogram {
                bounds_millionths: bounds_millionths@,
            },
        }
    }
}

impl View for MetricDecl {
    type V = DeclView;

    open spec fn view(&self) -> DeclView {
        DeclView { name: self.name@, help: self.help@, kind: self.kind@ }
    }
}

#[derive(Clone, Copy, Debug, PartialEq, Eq, Structural)]
pub enum RegistrationError {
    DuplicateMetricName,
    InvalidBuckets,
}

/// Bucket bounds are usable when there is at least one and they strictly ascend.
pub open spec fn buckets_valid(b: Seq<u64>) -> bool {
    &&& b.len() > 0
    &&& forall|i: int| 0 <= i < b.len() - 1 ==> #[trigger] b[i] < b[i + 1]
}

pub open spec fn kind_valid(k: MetricKind) -> bool {
    match k {
        MetricKind::Histogram { bounds_millionths } => buckets_valid(bounds_millionths@),
        _ => true,
    }
}

pub open spec fn name_taken(s: Seq<MetricDecl>, name: Seq<char>) -> bool {
    exists|i: int| 0 <= i < s.len() && (#[trigger] s[i]).name@ == name
}

/// Every name occurs once and every histogram has usable buckets.
pub open spec fn decls_valid(s: Seq<MetricDecl>) -> bool {
    &&& forall|i: int, j: int| 0 <= i < j < s.len() ==> s[i].name@ != s[j].name@
    &&& forall|i: int| 0 <= i < s.len() ==> kind_valid(#[trigger] s[i].kind)
}

/// Once a declaration is added, its name is taken: by `Catalog::register`'s
/// contract, any later registration under that name, of whatever kind, fails with
/// `DuplicateMetricName` and leaves the catalog as it was.
pub proof fn lemma_added_name_is_taken(s: Seq<MetricDecl>, d: MetricDecl, other: MetricDecl)
    requires
        other.name@ == d.name@,
    ensures
        name_taken(s.push(d), other.name@),
{
    assert(s.push(d)[s.len() as int] == d);
}

/// The set of metrics declared so far, each under its own name.
pub struct Catalog {
    decls: Vec<MetricDecl>,
}

impl View for Catalog {
    type V = Seq<MetricDecl>;

    closed spec fn view(&self) -> Seq<MetricDecl> {
        self.decls@
    }
}

/// Checks that the bounds are non-empty and strictly ascending.
pub fn check_buckets(b: &Vec<u64>) -> (r: bool)
    ensures
        r == buckets_valid(b@),
{
    if b.len() == 0 {
        return false;
    }
    let mut i: usize = 0;
    while i + 1 < b.len()
        invariant
            b.len() > 0,
            i < b.len(),
            forall|k: int| 0 <= k < i ==> #[trigger] b@[k] < b@[k + 1],
        decreases b.len() - i,
    {
        if b[i] >= b[i + 1] {
            return false;
        }
        i += 1;
    }
    true
}

impl Catalog {
    pub fn new() -> (r: Catalog)
        ensures
            r@ == Seq::<MetricDecl>::empty(),
    {
        Catalog { decls: Vec::new() }
    }

    pub fn len(&self) -> (r: usize)
        ensures
            r == self@.len(),
    {
        self.decls.len()
    }

    pub fn get(&self, i: usize) -> (r: &MetricDecl)
        requires
            i < self@.len(),
        ensures
            *r == self@[i as int],
    {
        &self.decls[i]
    }

    pub fn contains_name(&self, name: &String) -> (r: bool)
        ensures
            r == name_taken(self@, name@),
    {
        let mut i: usize = 0;
        while i < self.decls.len()
            invariant
                i <= self.decls@.len(),
                forall|k: int| 0 <= k < i ==> (#[trigger] self.decls@[k]).name@ != name@,
            decreases self.decls.len() - i,
        {
            if self.decls[i].name == *name {
                return true;
            }
            i += 1;
        }
        false
    }

    /// Adds `decl` under its name. A name that is already taken gives
    /// `DuplicateMetricName`, a histogram without strictly ascending bounds gives
    /// `InvalidBuckets`; either way the catalog is left as it was.
    pub fn register(&mut self, decl: MetricDecl) -> (r: Result<(), RegistrationError>)
        ensures
            name_taken(old(self)@, decl.name@) ==> r == Err::<(), _>(
                RegistrationError::DuplicateMetricName,
            ),
            !name_taken(old(self)@, decl.name@) && !kind_valid(decl.kind) ==> r == Err::<(), _>(
                RegistrationError::InvalidBuckets,
            ),
            r is Ok <==> !name_taken(old(self)@, decl.name@) && kind_valid(decl.kind),
            r is Ok ==> final(self)@ == old(self)@.push(decl),
            r is Err ==> final(self)@ == old(self)@,
    {
        if self.contains_name(&decl.name) {
            return Err(RegistrationError::DuplicateMetricName);
        }
        let ok = match &decl.kind {
            MetricKind::Histogram { bounds_millionths } => check_buckets(bounds_millionths),
            _ => true,
        };
        if !ok {
            return Err(RegistrationError::InvalidBuckets);
        }
        self.decls.push(decl);
        Ok(())
    }
}

/// Builds a catalog holding `decls` in order. It succeeds exactly when every name
/// occurs once and every histogram has usable buckets; otherwise the error names
/// a fault that `decls` has.
pub fn register_all(decls: Vec<MetricDecl>) -> (r: Result<Catalog, RegistrationError>)
    ensures
        r is Ok <==> decls_valid(decls@),
        r matches Ok(c) ==> c@ == decls@,
        r == Err::<Catalog, _>(RegistrationError::DuplicateMetricName) ==> exists|i: int, j: int|
            0 <= i < j < decls@.len() && decls@[i].name@ == decls@[j].name@,
        r == Err::<Catalog, _>(RegistrationError::InvalidBuckets) ==> exists|i: int|
            0 <= i < decls@.len() && !kind_valid(#[trigger] decls@[i].kind),
{
    let ghost all = decls@;
    let mut rest = decls;
    let mut c = Catalog::new();
    proof {
        assert(c@ + rest@ =~= all);
    }
    while rest.len() > 0
        invariant
            all == decls@,
            c@ + rest@ == all,
            decls_valid(c@),
        decreases rest.len(),
    {
        let ghost before = c@;
        let ghost tail = rest@;
        let d = rest.remove(0);
        let ghost dd = d;
        proof {
            assert(all[before.len() as int] == dd && before.len() < all.len()) by {
                assert(all == before + tail);
            }
        }
        match c.register(d) {
            Ok(()) => {
                proof {
                    assert(c@ + rest@ =~= all) by {
                        assert(all == before + tail);
                    }
                    assert forall|i: int, j: int| 0 <= i < j < c@.len() implies c@[i].name@
                        != c@[j].name@ by {
                        if j == before.len() {
                            assert(c@[i] == before[i]);
                        } else {
                            assert(c@[i] == before[i] && c@[j] == before[j]);
                        }
                    }
                    assert forall|i: int| 0 <= i < c@.len() implies kind_valid(
                        #[trigger] c@[i].kind,
                    ) by {
                        if i < before.len() {
                            assert(c@[i] == before[i]);
                        }
                    }
                }
            },
            Err(e) => {
                proof {
                    let n = before.len() as int;
                    if e == RegistrationError::DuplicateMetricName {
                        let k = choose|k: int|
                            0 <= k < before.len() && (#[trigger] before[k]).name@ == dd.name@;
                        assert(all[k] == before[k]) by {
                            assert(all == before + tail);
                        }
                        assert(0 <= k < n < all.len() && all[k].name@ == all[n].name@);
                        assert(exists|i: int, j: int|
                            0 <= i < j < all.len() && all[i].name@ == all[j].name@);
                    } else {
                        assert(!kind_valid(all[n].kind));
                        assert(exists|i: int| 0 <= i < all.len() && !kind_valid(#[trigger] all[i].kind));
                    }
                    assert(!decls_valid(all));
                }
                return Err(e);
            },
        }
    }
    proof {
        assert(c@ =~= all);
    }
    Ok(c)
}

} // verus!
