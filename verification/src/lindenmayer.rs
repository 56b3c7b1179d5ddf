//! Lindenmayer systems are a methodology for representing various kinds of iterated curves or
//! other constructions. A given system has an alphabet of symbols, an initial string, and one or
//! more rules for transforming that string into the next iteration/generation.
//!
//! The resulting string at a given iteration or generation can represent a sequence of commands
//! that some representation process, such as a turtle drawing program, can then use to draw a
//! curve/fractal/plant.
use core::marker::PhantomData;
use vstd::cell::invcell::InvCell;
use vstd::prelude::*;

verus! {

broadcast use vstd::seq_lib::group_seq_properties;

/// The string obtained by replacing every symbol of `s` with the string that `rule` produces for
/// it.
pub open spec fn rewrite<A>(rule: spec_fn(A) -> Seq<A>, s: Seq<A>) -> Seq<A> {
    s.map_values(rule).flatten()
}

/// The string of generation `n`: `initial` rewritten `n` times with `rule`.
pub open spec fn derive_generation<A>(initial: Seq<A>, rule: spec_fn(A) -> Seq<A>, n: nat) -> Seq<A>
    decreases n,
{
    if n == 0 {
        initial
    } else {
        rewrite(rule, derive_generation(initial, rule, (n - 1) as nat))
    }
}

/// The rule of `system` as a mathematical function.
pub open spec fn rule_of<A: Copy, L: LindenmayerSystem<A>>(system: L) -> spec_fn(A) -> Seq<A> {
    |a: A| system.spec_rule(a)
}

/// The Lindenmayer system string of generation `n` of `system`.
pub open spec fn derivation<A: Copy, L: LindenmayerSystem<A>>(system: L, n: nat) -> Seq<A> {
    derive_generation(system.spec_initial(), rule_of(system), n)
}

/// Rewriting a string that ends in `a` rewrites the rest, then appends the rule's string for `a`.
pub proof fn lemma_rewrite_push<A>(rule: spec_fn(A) -> Seq<A>, s: Seq<A>, a: A)
    ensures
        rewrite(rule, s.push(a)) == rewrite(rule, s) + rule(a),
{
    assert(s.push(a).map_values(rule) =~= s.map_values(rule).push(rule(a)));
    s.map_values(rule).lemma_flatten_push(rule(a));
}

/// Rewriting works symbol by symbol: rewriting two strings one after the other gives the same
/// string as rewriting them joined.
pub proof fn lemma_rewrite_concat<A>(rule: spec_fn(A) -> Seq<A>, s: Seq<A>, t: Seq<A>)
    ensures
        rewrite(rule, s + t) == rewrite(rule, s) + rewrite(rule, t),
{
    assert((s + t).map_values(rule) =~= s.map_values(rule) + t.map_values(rule));
    vstd::seq_lib::lemma_flatten_concat(s.map_values(rule), t.map_values(rule));
}

/// Generations compose: generation `m + n` is generation `m` rewritten `n` more times.
pub proof fn lemma_generations_compose<A>(initial: Seq<A>, rule: spec_fn(A) -> Seq<A>, m: nat, n: nat)
    ensures
        derive_generation(initial, rule, m + n) == derive_generation(
            derive_generation(initial, rule, m),
            rule,
            n,
        ),
    decreases n,
{
    if n > 0 {
        lemma_generations_compose(initial, rule, m, (n - 1) as nat);
        assert((m + n - 1) as nat == m + (n - 1) as nat);
    }
}

/// Represents a particular Lindenmayer system. It requires an alphabet (represented as an
/// enum), an initial sequence ("string"), and one or more rules that transform the sequence with
/// each iteration/generation.
///
/// An implementation describes its initial string and its rules twice: as the executable
/// `initial()` and `apply_rule()`, and as the mathematical `spec_initial()` and `spec_rule()`
/// that those two promise to return. The provided methods are verified against the latter.
pub trait LindenmayerSystem<Alphabet: Copy>: Sized {
    /// The initial string of the system, as a mathematical sequence. Every implementation that
    /// is checked by the verifier gives its own definition.
    open spec fn spec_initial(&self) -> Seq<Alphabet> {
        vstd::pervasive::arbitrary()
    }

    /// The string that the rule for `symbol` produces, as a mathematical sequence. Every
    /// implementation that is checked by the verifier gives its own definition.
    open spec fn spec_rule(&self, symbol: Alphabet) -> Seq<Alphabet> {
        vstd::pervasive::arbitrary()
    }

    /// Should return the initial Lindenmayer system string (iteration 0).
    fn initial(&self) -> (r: Vec<Alphabet>)
        ensures
            r@ == self.spec_initial(),
    ;

    /// Apply Lindenmayer system rules to a given symbol.
    fn apply_rule(&self, curr_symbol: Alphabet) -> (r: Vec<Alphabet>)
        ensures
            r@ == self.spec_rule(curr_symbol),
    ;

    /// Replaces every symbol of `last_iteration` with the string that its rule produces.
    fn generate_next_iteration(&self, last_iteration: &Vec<Alphabet>) -> (r: Vec<Alphabet>)
        ensures
            r@ == rewrite(|a: Alphabet| self.spec_rule(a), last_iteration@),
    {
        let mut newlstr: Vec<Alphabet> = Vec::new();
        let mut i: usize = 0;
        while i < last_iteration.len()
            invariant
                i <= last_iteration.len(),
                newlstr@ == rewrite(|a: Alphabet| self.spec_rule(a), last_iteration@.take(i as int)),
            decreases last_iteration.len() - i,
        {
            let l = last_iteration[i];
            let mut produced = self.apply_rule(l);
            newlstr.append(&mut produced);
            proof {
                lemma_rewrite_push(|a: Alphabet| self.spec_rule(a), last_iteration@.take(i as int), l);
                assert(last_iteration@.take(i + 1) =~= last_iteration@.take(i as int).push(l));
            }
            i = i + 1;
        }
        assert(last_iteration@.take(i as int) =~= last_iteration@);
        newlstr
    }

    /// Generates a Lindenmayer system string for `iteration`.
    ///
    /// This is done by starting with the initial sequence, and repeatedly applying the rules to
    /// the sequence `iteration` times. The result is a new vector that contains the sequence for
    /// the specified iteration.
    fn generate(&self, iteration: u64) -> (r: Vec<Alphabet>)
        ensures
            r@ == derive_generation(self.spec_initial(), |a: Alphabet| self.spec_rule(a), iteration as nat),
    {
        let mut last: Vec<Alphabet> = self.initial();
        let mut i: u64 = 0;
        while i < iteration
            invariant
                i <= iteration,
                last@ == derive_generation(self.spec_initial(), |a: Alphabet| self.spec_rule(a), i as nat),
            decreases iteration - i,
        {
            i = i + 1;
            last = self.generate_next_iteration(&last);
        }
        last
    }
}

/// Copies the symbols of `v` into a new vector.
fn copy_symbols<A: Copy>(v: &Vec<A>) -> (r: Vec<A>)
    ensures
        r@ == v@,
{
    let mut r: Vec<A> = Vec::new();
    let mut i: usize = 0;
    while i < v.len()
        invariant
            i <= v.len(),
            r@ == v@.take(i as int),
        decreases v.len() - i,
    {
        r.push(v[i]);
        assert(v@.take(i + 1) =~= v@.take(i as int).push(v@[i as int]));
        i = i + 1;
    }
    assert(v@.take(i as int) =~= v@);
    r
}

/// What the iteration cache of a `LindenmayerSystemCachingDecorator` always holds: at each index
/// `i`, the string of generation `i` of `system`.
pub open spec fn holds_generations<A: Copy, L: LindenmayerSystem<A>>(system: L) -> spec_fn(
    Vec<Vec<A>>,
) -> bool {
    |cache: Vec<Vec<A>>|
        forall|i: int| 0 <= i < cache@.len() ==> #[trigger] cache@[i]@ == derivation(system, i as nat)
}

/// In order to improve the performance of using a Lindenmayer System under some circumstances,
/// it is beneficial to cache each iteration. This allows O(1) lookups for every iteration less
/// than or equal to the largest iteration already looked up at the cost of storing every
/// iteration below the largest iteration computed.
#[verifier::reject_recursive_types(A)]
pub struct LindenmayerSystemCachingDecorator<L, A> where L: LindenmayerSystem<A>, A: Copy {
    alphabet: PhantomData<A>,
    system: L,
    iteration_cache: InvCell<Vec<Vec<A>>, spec_fn(Vec<Vec<A>>) -> bool>,
}

impl<L, A> LindenmayerSystemCachingDecorator<L, A> where L: LindenmayerSystem<A>, A: Copy {
    #[verifier::type_invariant]
    spec fn cache_describes_system(self) -> bool {
        self.iteration_cache.predicate() == holds_generations::<A, L>(self.system)
    }

    /// The wrapped system.
    pub closed spec fn spec_system(self) -> L {
        self.system
    }

    /// Return a new LindenmayerSystemCachingDecorator that wraps the input `system` and caches
    /// its iterations.
    pub fn new(system: L) -> (r: LindenmayerSystemCachingDecorator<L, A>)
        ensures
            r.spec_system() == system,
    {
        let empty: Vec<Vec<A>> = Vec::new();
        let cache = InvCell::new(empty, Ghost(holds_generations::<A, L>(system)));
        LindenmayerSystemCachingDecorator { alphabet: PhantomData, system, iteration_cache: cache }
    }

    /// The wrapped system.
    pub fn system(&self) -> (r: &L)
        ensures
            *r == self.spec_system(),
    {
        &self.system
    }
}

/// The caching decorator and the system it wraps derive the same strings: caching changes how a
/// generation is computed, never what it is.
pub proof fn lemma_caching_is_transparent<L: LindenmayerSystem<A>, A: Copy>(
    decorator: LindenmayerSystemCachingDecorator<L, A>,
    n: nat,
)
    ensures
        derivation(decorator, n) == derivation(decorator.spec_system(), n),
    decreases n,
{
    let system = decorator.spec_system();
    if n > 0 {
        lemma_caching_is_transparent(decorator, (n - 1) as nat);
        let prev = derivation(system, (n - 1) as nat);
        assert(prev.map_values(|a: A| decorator.spec_rule(a)) =~= prev.map_values(
            |a: A| system.spec_rule(a),
        ));
    }
}

impl<L, A> LindenmayerSystem<A> for LindenmayerSystemCachingDecorator<L, A> where
    L: LindenmayerSystem<A>,
    A: Copy,
 {
    open spec fn spec_initial(&self) -> Seq<A> {
        self.spec_system().spec_initial()
    }

    open spec fn spec_rule(&self, symbol: A) -> Seq<A> {
        self.spec_system().spec_rule(symbol)
    }

    /// Delegate to system
    fn initial(&self) -> (r: Vec<A>) {
        self.system.initial()
    }

    /// Delegate to system
    fn apply_rule(&self, curr_symbol: A) -> (r: Vec<A>) {
        self.system.apply_rule(curr_symbol)
    }

    /// Reimplemented to use the cache: every generation up to `iteration` that is not cached yet
    /// is computed from the one before it and stored, then the requested one is copied out.
    fn generate(&self, iteration: u64) -> (r: Vec<A>) {
        proof {
            use_type_invariant(self);
            assert((|a: A| self.spec_rule(a)) =~= (|a: A| self.system.spec_rule(a)));
        }
        let mut cache = self.iteration_cache.replace(Vec::new());
        while (cache.len() as u64) <= iteration
            invariant
                holds_generations::<A, L>(self.system)(cache),
            decreases iteration + 1 - cache.len(),
        {
            let next = if cache.len() == 0 {
                self.system.initial()
            } else {
                self.system.generate_next_iteration(&cache[cache.len() - 1])
            };
            cache.push(next);
        }
        let result = copy_symbols(&cache[iteration as usize]);
        let _ = self.iteration_cache.replace(cache);
        result
    }
}

} // verus!
