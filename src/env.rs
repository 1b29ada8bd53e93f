//! Scope frames, kept in an arena and named by index.
//!
//! A frame refers to its parent by index, so a child never owns its parent
//! and closures that capture a frame create no reference cycles. Frames live
//! as long as the arena does.
use crate::error::{ErrorView, EvalError};
use crate::value::{Value, ValueView};
use fnv::FnvHashMap;
use vstd::prelude::*;

verus! {

/// A handle on a frame of an [`Env`]: its index in the arena.
pub type EnvRef = usize;

/// The hasher of `FnvHashMap`, carried through opaquely.
#[verifier::external_type_specification]
#[verifier::external_body]
pub struct ExFnvHasher(fnv::FnvHasher);

/// The hasher builder of `FnvHashMap`, carried through opaquely.
#[verifier::external_type_specification]
#[verifier::external_body]
#[verifier::reject_recursive_types(H)]
pub struct ExBuildHasherDefault<H>(std::hash::BuildHasherDefault<H>);

/// The variable bindings of every frame of an arena, keyed by frame and name.
pub type Bindings = FnvHashMap<(EnvRef, String), Value>;

/// What a [`Bindings`] holds: for each frame and name bound there, the view
/// of the bound value.
pub uninterp spec fn bindings_of(b: FnvHashMap<(EnvRef, String), Value>) -> Map<
    (EnvRef, Seq<char>),
    ValueView,
>;

/// The empty binding map.
pub open spec fn no_bindings() -> Map<(EnvRef, Seq<char>), ValueView> {
    Map::empty()
}

/// Relies on `FnvHashMap::default`: a new map holds no entry.
#[verifier::external_body]
fn new_bindings() -> (r: Bindings)
    ensures
        bindings_of(r) == no_bindings(),
{
    FnvHashMap::default()
}

/// Relies on `HashMap::insert`: the key is bound to the value, replacing
/// what it was bound to; other keys keep their values.
#[verifier::external_body]
fn bind(b: &mut Bindings, env: EnvRef, name: String, value: Value)
    ensures
        bindings_of(*final(b)) == bindings_of(*old(b)).insert((env, name@), value@),
{
    b.insert((env, name), value);
}

/// Relies on `HashMap::get`: the value bound to the key, if any.
#[verifier::external_body]
fn bound<'a>(b: &'a Bindings, env: EnvRef, name: &str) -> (r: Option<&'a Value>)
    ensures
        match r {
            Some(v) => bindings_of(*b).contains_key((env, name@)) && v@ == bindings_of(*b)[(
                env,
                name@,
            )],
            None => !bindings_of(*b).contains_key((env, name@)),
        },
{
    b.get(&(env, name.to_string()))
}

/// The arena of scope frames.
pub struct Env {
    parents: Vec<Option<EnvRef>>,
    bindings: Bindings,
}

/// The content of an [`Env`]: the parent of each frame, and what each frame
/// binds.
pub struct EnvView {
    pub parents: Seq<Option<EnvRef>>,
    pub vars: Map<(EnvRef, Seq<char>), ValueView>,
}

impl View for Env {
    type V = EnvView;

    closed spec fn view(&self) -> EnvView {
        EnvView { parents: self.parents@, vars: bindings_of(self.bindings) }
    }
}

impl EnvView {
    /// The number of frames.
    pub open spec fn len(self) -> nat {
        self.parents.len()
    }

    /// Every binding belongs to an existing frame.
    pub open spec fn wf(self) -> bool {
        forall|k: (EnvRef, Seq<char>)| #[trigger] self.vars.contains_key(k) ==> k.0 < self.len()
    }

    /// Whether frame `env` itself binds `name`.
    pub open spec fn binds(self, env: EnvRef, name: Seq<char>) -> bool {
        self.vars.contains_key((env, name))
    }

    /// The frame where a walk from `env` up the parent chain first finds
    /// `name`. The walk stops at a frame without parent, and at a parent
    /// index that does not lie below the child's.
    pub open spec fn owner(self, env: EnvRef, name: Seq<char>) -> Option<EnvRef>
        decreases env,
    {
        if env >= self.len() {
            None
        } else if self.binds(env, name) {
            Some(env)
        } else {
            match self.parents[env as int] {
                Some(p) => if p < env {
                    self.owner(p, name)
                } else {
                    None
                },
                None => None,
            }
        }
    }

    /// The value that `name` has when looked up from frame `env`.
    pub open spec fn lookup(self, env: EnvRef, name: Seq<char>) -> Option<ValueView> {
        match self.owner(env, name) {
            Some(o) => Some(self.vars[(o, name)]),
            None => None,
        }
    }

    /// `name` bound to `v` in frame `env` itself.
    pub open spec fn declared(self, env: EnvRef, name: Seq<char>, v: ValueView) -> EnvView {
        EnvView { parents: self.parents, vars: self.vars.insert((env, name), v) }
    }

    /// A new frame, with parent `parent`, added at index `self.len()`.
    pub open spec fn with_child(self, parent: EnvRef) -> EnvView {
        EnvView { parents: self.parents.push(Some(parent)), vars: self.vars }
    }

    /// The binding of `name` seen from `env` set to `v`, in the frame that
    /// owns it; `None` when no frame of the chain binds `name`.
    pub open spec fn assigned(self, env: EnvRef, name: Seq<char>, v: ValueView) -> Option<
        EnvView,
    > {
        match self.owner(env, name) {
            Some(o) => Some(self.declared(o, name, v)),
            None => None,
        }
    }
}

/// The frame that owns a name exists and binds it.
pub proof fn lemma_owner_binds(ev: EnvView, env: EnvRef, name: Seq<char>)
    ensures
        ev.owner(env, name) matches Some(o) ==> o < ev.len() && ev.binds(o, name),
    decreases env,
{
    if env < ev.len() && !ev.binds(env, name) {
        if let Some(p) = ev.parents[env as int] {
            if p < env {
                lemma_owner_binds(ev, p, name);
            }
        }
    }
}

/// The view of a looked-up value.
pub open spec fn option_view(r: Option<Value>) -> Option<ValueView> {
    match r {
        Some(v) => Some(v@),
        None => None,
    }
}

impl Env {
    /// An arena that holds one frame, the root (index 0), with no bindings
    /// and no parent.
    pub fn root() -> (r: Env)
        ensures
            r@.parents == seq![Option::<EnvRef>::None],
            r@.vars == no_bindings(),
            r@.wf(),
    {
        let mut parents: Vec<Option<EnvRef>> = Vec::new();
        parents.push(None);
        let r = Env { parents, bindings: new_bindings() };
        assert(r@.parents =~= seq![Option::<EnvRef>::None]);
        r
    }

    /// The number of frames.
    pub fn len(&self) -> (r: usize)
        ensures
            r == self@.len(),
    {
        self.parents.len()
    }

    /// Adds a frame without bindings whose parent is `parent`, and returns
    /// its handle.
    pub fn child(&mut self, parent: EnvRef) -> (r: EnvRef)
        ensures
            r == old(self)@.len(),
            final(self)@ == old(self)@.with_child(parent),
            old(self)@.wf() ==> final(self)@.wf(),
    {
        let r: EnvRef = self.parents.len();
        self.parents.push(Some(parent));
        r
    }

    /// Binds `name` to `value` in frame `env` itself, replacing a binding of
    /// the same name there; outer bindings of `name` are shadowed.
    pub fn declare(&mut self, env: EnvRef, name: String, value: Value)
        requires
            env < old(self)@.len(),
        ensures
            final(self)@ == old(self)@.declared(env, name@, value@),
            old(self)@.wf() ==> final(self)@.wf(),
    {
        bind(&mut self.bindings, env, name, value);
        assert(old(self)@.wf() ==> final(self)@.wf()) by {
            if old(self)@.wf() {
                assert forall|k: (EnvRef, Seq<char>)| #[trigger]
                    final(self)@.vars.contains_key(k) implies k.0 < final(self)@.len() by {
                    if k != (env, name@) {
                        assert(old(self)@.vars.contains_key(k));
                    }
                }
            }
        }
    }

    /// The frame on the chain from `env` that binds `name`.
    fn find_owner(&self, env: EnvRef, name: &str) -> (r: Option<EnvRef>)
        ensures
            r == self@.owner(env, name@),
    {
        let mut cur = env;
        loop
            invariant
                self@.owner(env, name@) == self@.owner(cur, name@),
            decreases cur,
        {
            if cur >= self.parents.len() {
                return None;
            }
            if bound(&self.bindings, cur, name).is_some() {
                return Some(cur);
            }
            match self.parents[cur] {
                Some(p) => {
                    if p < cur {
                        cur = p;
                    } else {
                        return None;
                    }
                },
                None => {
                    return None;
                },
            }
        }
    }

    /// The value of `name` seen from frame `env`: the binding in the nearest
    /// frame of the parent chain that has one, or `None`.
    pub fn get(&self, env: EnvRef, name: &str) -> (r: Option<Value>)
        ensures
            option_view(r) == self@.lookup(env, name@),
    {
        proof {
            lemma_owner_binds(self@, env, name@);
        }
        match self.find_owner(env, name) {
            Some(o) => match bound(&self.bindings, o, name) {
                Some(v) => Some(v.copy()),
                None => None,
            },
            None => None,
        }
    }

    /// Sets `name` to `value` in the nearest frame of the chain from `env`
    /// that binds it. When no frame does, nothing changes and the result is
    /// `UndefinedVariable(name)`.
    pub fn assign(&mut self, env: EnvRef, name: String, value: Value) -> (r: Result<(), EvalError>)
        ensures
            match old(self)@.assigned(env, name@, value@) {
                Some(ev) => r is Ok && final(self)@ == ev,
                None => final(self)@ == old(self)@ && match r {
                    Ok(_) => false,
                    Err(e) => e@ == ErrorView::UndefinedVariable(name@),
                },
            },
            old(self)@.wf() ==> final(self)@.wf(),
    {
        proof {
            lemma_owner_binds(self@, env, name@);
        }
        match self.find_owner(env, name.as_str()) {
            Some(o) => {
                self.declare(o, name, value);
                Ok(())
            },
            None => Err(EvalError::UndefinedVariable(name)),
        }
    }
}

} // verus!
