use vstd::prelude::*;

verus! {

/// The native datum a foreign object carries.
///
/// The foreign runtime is opaque; what this layer can observe of an object's
/// value is modelled as one of these plain forms.
pub enum Payload {
    /// An integer-like foreign object.
    Int(u64),
    /// A string-like foreign object.
    Text(String),
    /// An object whose value this layer never reads.
    Opaque,
}

/// The mathematical state of the foreign runtime.
///
/// Objects are identified by nonzero ids (the pointer identity); id `p` names
/// the slot at index `p - 1`. Id 0 is the null sentinel and never names an
/// object. Type descriptors live in their own table under the same scheme;
/// `bases[t - 1] == 0` means type `t` has no base.
#[verifier::ext_equal]
pub struct RuntimeModel {
    /// Current refcount of each object; 0 means the object has been destroyed.
    pub refcnts: Seq<usize>,
    /// Type-descriptor id of each object.
    pub tys: Seq<usize>,
    /// Native datum of each object.
    pub values: Seq<Payload>,
    /// Informal string form of each object; `None` means the object's string
    /// conversion fails.
    pub str_forms: Seq<Option<String>>,
    /// Formal repr form of each object; `None` means the conversion fails.
    pub repr_forms: Seq<Option<String>>,
    /// Base type of each type descriptor; 0 means no base.
    pub bases: Seq<usize>,
}

impl RuntimeModel {
    /// Number of object slots ever created (live or destroyed).
    pub open spec fn n_objs(self) -> int {
        self.refcnts.len() as int
    }

    /// Number of type descriptors.
    pub open spec fn n_types(self) -> int {
        self.bases.len() as int
    }

    /// `p` names an object slot (possibly of a destroyed object).
    pub open spec fn is_obj(self, p: int) -> bool {
        1 <= p <= self.n_objs()
    }

    /// `t` names a type descriptor.
    pub open spec fn is_type(self, t: int) -> bool {
        1 <= t <= self.n_types()
    }

    /// Current refcount of object `p`.
    pub open spec fn refcnt_of(self, p: int) -> int {
        self.refcnts[p - 1] as int
    }

    /// `p` names an object that has not been destroyed.
    pub open spec fn live(self, p: int) -> bool {
        self.is_obj(p) && self.refcnt_of(p) >= 1
    }

    /// Type-descriptor id of object `p`.
    pub open spec fn type_of(self, p: int) -> int {
        self.tys[p - 1] as int
    }

    /// Native datum of object `p`.
    pub open spec fn value_of(self, p: int) -> Payload {
        self.values[p - 1]
    }

    /// Informal string form of object `p`, if its conversion succeeds.
    pub open spec fn str_form_of(self, p: int) -> Option<String> {
        self.str_forms[p - 1]
    }

    /// Formal repr form of object `p`, if its conversion succeeds.
    pub open spec fn repr_form_of(self, p: int) -> Option<String> {
        self.repr_forms[p - 1]
    }

    /// Base type of type `t`; 0 means none.
    pub open spec fn base_of(self, t: int) -> int {
        self.bases[t - 1] as int
    }

    /// Well-formedness: the object tables agree in length, every object's
    /// type descriptor exists, and every base link points to an earlier type,
    /// so the hierarchy is acyclic.
    pub open spec fn wf(self) -> bool {
        &&& self.tys.len() == self.refcnts.len()
        &&& self.values.len() == self.refcnts.len()
        &&& self.str_forms.len() == self.refcnts.len()
        &&& self.repr_forms.len() == self.refcnts.len()
        &&& forall|p: int| self.is_obj(p) ==> self.is_type(#[trigger] self.type_of(p))
        &&& forall|t: int| self.is_type(t) ==> 0 <= #[trigger] self.base_of(t) < t
    }

    /// Kind `a` satisfies kind `e`: they are equal, or `e` is reached from `a`
    /// by walking base links. A base link that is 0, out of the table, or not
    /// strictly decreasing ends the walk.
    pub open spec fn kind_le(self, a: int, e: int) -> bool
        decreases a,
    {
        if a == e {
            true
        } else if self.is_type(a) && 1 <= self.base_of(a) < a {
            self.kind_le(self.base_of(a), e)
        } else {
            false
        }
    }

    /// State after one increment of object `p`'s refcount.
    pub open spec fn after_incref(self, p: int) -> RuntimeModel {
        RuntimeModel { refcnts: self.refcnts.update(p - 1, (self.refcnt_of(p) + 1) as usize), ..self }
    }

    /// State after one decrement of object `p`'s refcount. A decrement that
    /// reaches 0 destroys the object.
    pub open spec fn after_decref(self, p: int) -> RuntimeModel {
        RuntimeModel { refcnts: self.refcnts.update(p - 1, (self.refcnt_of(p) - 1) as usize), ..self }
    }

    /// State after a new type descriptor with base `base` is added.
    pub open spec fn after_new_type(self, base: usize) -> RuntimeModel {
        RuntimeModel { bases: self.bases.push(base), ..self }
    }

    /// State after a fresh object of type `ty` is created with refcount 1.
    pub open spec fn after_new_object(
        self,
        ty: usize,
        value: Payload,
        str_form: Option<String>,
        repr_form: Option<String>,
    ) -> RuntimeModel {
        RuntimeModel {
            refcnts: self.refcnts.push(1),
            tys: self.tys.push(ty),
            values: self.values.push(value),
            str_forms: self.str_forms.push(str_form),
            repr_forms: self.repr_forms.push(repr_form),
            bases: self.bases,
        }
    }
}

/// A reference acquired by incrementing — a shared construction or a clone —
/// and then released leaves every refcount, and the whole runtime state,
/// exactly as it was before the acquisition.
pub proof fn lemma_incref_then_decref_restores(m: RuntimeModel, p: int)
    requires
        m.live(p),
        m.refcnt_of(p) < usize::MAX,
    ensures
        m.after_incref(p).after_decref(p) == m,
{
    assert(m.after_incref(p).after_decref(p).refcnts =~= m.refcnts);
    assert(m.after_incref(p).after_decref(p) =~= m);
}

/// Releasing a reference that was adopted — constructed without an increment —
/// performs exactly one decrement: the object's refcount drops by one and
/// every other part of the runtime state is unchanged.
pub proof fn lemma_release_decrements(m: RuntimeModel, p: int)
    requires
        m.live(p),
    ensures
        m.after_decref(p).refcnt_of(p) == m.refcnt_of(p) - 1,
        forall|q: int|
            m.is_obj(q) && q != p ==> #[trigger] m.after_decref(p).refcnt_of(q) == m.refcnt_of(q),
        m.after_decref(p).n_objs() == m.n_objs(),
        m.after_decref(p).tys == m.tys,
        m.after_decref(p).values == m.values,
        m.after_decref(p).bases == m.bases,
{
}

/// A change that touches only refcounts, and not how many objects there are,
/// preserves well-formedness.
proof fn lemma_refcnt_change_keeps_wf(m: RuntimeModel, n: RuntimeModel)
    requires
        m.wf(),
        n.refcnts.len() == m.refcnts.len(),
        n.tys == m.tys,
        n.values == m.values,
        n.str_forms == m.str_forms,
        n.repr_forms == m.repr_forms,
        n.bases == m.bases,
    ensures
        n.wf(),
{
    assert forall|q: int| n.is_obj(q) implies n.is_type(#[trigger] n.type_of(q)) by {
        assert(m.is_type(m.type_of(q)));
    }
    assert forall|t: int| n.is_type(t) implies 0 <= #[trigger] n.base_of(t) < t by {
        assert(0 <= m.base_of(t) < t);
    }
}

/// The foreign runtime, modelled as explicit state.
///
/// This value stands for one active session: handles are only meaningful
/// against the runtime they were created from, and every operation that reads
/// or changes foreign state takes the runtime as a parameter.
pub struct Runtime {
    refcnts: Vec<usize>,
    tys: Vec<usize>,
    values: Vec<Payload>,
    str_forms: Vec<Option<String>>,
    repr_forms: Vec<Option<String>>,
    bases: Vec<usize>,
}

impl View for Runtime {
    type V = RuntimeModel;

    closed spec fn view(&self) -> RuntimeModel {
        RuntimeModel {
            refcnts: self.refcnts@,
            tys: self.tys@,
            values: self.values@,
            str_forms: self.str_forms@,
            repr_forms: self.repr_forms@,
            bases: self.bases@,
        }
    }
}

impl Runtime {
    /// Starts a session with an empty foreign runtime.
    pub fn new() -> (rt: Runtime)
        ensures
            rt@.wf(),
            rt@.n_objs() == 0,
            rt@.n_types() == 0,
    {
        Runtime {
            refcnts: Vec::new(),
            tys: Vec::new(),
            values: Vec::new(),
            str_forms: Vec::new(),
            repr_forms: Vec::new(),
            bases: Vec::new(),
        }
    }

    /// Adds a type descriptor whose base is `base` (0 for no base) and
    /// returns its id.
    pub fn new_type(&mut self, base: usize) -> (t: usize)
        requires
            old(self)@.wf(),
            base == 0 || old(self)@.is_type(base as int),
            old(self)@.n_types() < usize::MAX,
        ensures
            final(self)@ == old(self)@.after_new_type(base),
            t as int == old(self)@.n_types() + 1,
            final(self)@.is_type(t as int),
            final(self)@.wf(),
    {
        let t: usize = self.bases.len() + 1;
        self.bases.push(base);
        proof {
            assert(self@ =~= old(self)@.after_new_type(base));
            assert forall|q: int| self@.is_obj(q) implies self@.is_type(
                #[trigger] self@.type_of(q),
            ) by {
                assert(old(self)@.is_type(old(self)@.type_of(q)));
            }
            assert forall|tt: int| self@.is_type(tt) implies 0 <= #[trigger] self@.base_of(tt)
                < tt by {
                if tt <= old(self)@.n_types() {
                    assert(self@.base_of(tt) == old(self)@.base_of(tt));
                    assert(0 <= old(self)@.base_of(tt) < tt);
                } else {
                    assert(self@.base_of(tt) == base as int);
                }
            }
        }
        t
    }

    /// Creates a fresh foreign object of type `ty` with refcount 1 — the
    /// caller owns the sole reference — and returns its pointer id.
    pub fn new_object(
        &mut self,
        ty: usize,
        value: Payload,
        str_form: Option<String>,
        repr_form: Option<String>,
    ) -> (p: usize)
        requires
            old(self)@.wf(),
            old(self)@.is_type(ty as int),
            old(self)@.n_objs() < usize::MAX,
        ensures
            final(self)@ == old(self)@.after_new_object(ty, value, str_form, repr_form),
            p as int == old(self)@.n_objs() + 1,
            final(self)@.live(p as int),
            final(self)@.refcnt_of(p as int) == 1,
            final(self)@.type_of(p as int) == ty as int,
            final(self)@.wf(),
    {
        let p: usize = self.refcnts.len() + 1;
        self.refcnts.push(1);
        self.tys.push(ty);
        self.values.push(value);
        self.str_forms.push(str_form);
        self.repr_forms.push(repr_form);
        proof {
            assert(self@ =~= old(self)@.after_new_object(ty, value, str_form, repr_form));
            assert forall|q: int| self@.is_obj(q) implies self@.is_type(
                #[trigger] self@.type_of(q),
            ) by {
                if q <= old(self)@.n_objs() {
                    assert(self@.type_of(q) == old(self)@.type_of(q));
                    assert(old(self)@.is_type(old(self)@.type_of(q)));
                } else {
                    assert(self@.type_of(q) == ty as int);
                }
            }
            assert forall|tt: int| self@.is_type(tt) implies 0 <= #[trigger] self@.base_of(tt)
                < tt by {
                assert(0 <= old(self)@.base_of(tt) < tt);
            }
        }
        p
    }

    /// Increments the refcount of the live object `p`.
    pub fn incref(&mut self, p: usize)
        requires
            old(self)@.wf(),
            old(self)@.live(p as int),
            old(self)@.refcnt_of(p as int) < usize::MAX,
        ensures
            final(self)@ == old(self)@.after_incref(p as int),
            final(self)@.wf(),
    {
        let r: usize = self.refcnts[p - 1];
        self.refcnts[p - 1] = r + 1;
        proof {
            assert(self@ =~= old(self)@.after_incref(p as int));
            lemma_refcnt_change_keeps_wf(old(self)@, self@);
        }
    }

    /// Decrements the refcount of the live object `p`. A decrement that
    /// reaches 0 destroys the object: it must not be touched afterwards.
    pub fn decref(&mut self, p: usize)
        requires
            old(self)@.wf(),
            old(self)@.live(p as int),
        ensures
            final(self)@ == old(self)@.after_decref(p as int),
            final(self)@.wf(),
    {
        let r: usize = self.refcnts[p - 1];
        self.refcnts[p - 1] = r - 1;
        proof {
            assert(self@ =~= old(self)@.after_decref(p as int));
            lemma_refcnt_change_keeps_wf(old(self)@, self@);
        }
    }

    /// Reads the current refcount of object `p`; 0 means it was destroyed.
    pub fn refcnt(&self, p: usize) -> (r: usize)
        requires
            self@.wf(),
            self@.is_obj(p as int),
        ensures
            r as int == self@.refcnt_of(p as int),
    {
        self.refcnts[p - 1]
    }

    /// Reads the type-descriptor id of object `p`.
    pub fn type_id_of(&self, p: usize) -> (t: usize)
        requires
            self@.wf(),
            self@.is_obj(p as int),
        ensures
            t as int == self@.type_of(p as int),
            self@.is_type(t as int),
    {
        proof {
            assert(self@.is_type(self@.type_of(p as int)));
        }
        self.tys[p - 1]
    }

    /// Reads the native datum of object `p`.
    pub fn payload(&self, p: usize) -> (r: &Payload)
        requires
            self@.wf(),
            self@.is_obj(p as int),
        ensures
            *r == self@.value_of(p as int),
    {
        &self.values[p - 1]
    }

    /// Reads the informal string form of object `p`, if its conversion
    /// succeeds.
    pub fn str_form(&self, p: usize) -> (r: &Option<String>)
        requires
            self@.wf(),
            self@.is_obj(p as int),
        ensures
            *r == self@.str_form_of(p as int),
    {
        &self.str_forms[p - 1]
    }

    /// Reads the formal repr form of object `p`, if its conversion succeeds.
    pub fn repr_form(&self, p: usize) -> (r: &Option<String>)
        requires
            self@.wf(),
            self@.is_obj(p as int),
        ensures
            *r == self@.repr_form_of(p as int),
    {
        &self.repr_forms[p - 1]
    }

    /// Decides whether kind `a` satisfies kind `e` by walking base links.
    pub fn kind_matches(&self, a: usize, e: usize) -> (r: bool)
        requires
            self@.wf(),
        ensures
            r == self@.kind_le(a as int, e as int),
    {
        let mut cur: usize = a;
        loop
            invariant
                self@.wf(),
                self@.kind_le(cur as int, e as int) == self@.kind_le(a as int, e as int),
            decreases cur,
        {
            if cur == e {
                return true;
            }
            if cur == 0 || cur > self.bases.len() {
                return false;
            }
            let b: usize = self.bases[cur - 1];
            if b == 0 {
                return false;
            }
            cur = b;
        }
    }
}

} // verus!
