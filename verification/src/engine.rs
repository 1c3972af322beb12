use rhai::{Dynamic, Engine, EvalAltResult, Scope};
use std::sync::Arc;
use vstd::prelude::*;

use crate::data::Data;
use crate::error::SimulateError;
use crate::key::{
    key_at, lemma_binding_names_differ, lemma_key_at_ordinal,
    lemma_ordinal_key_at, Key, KEY_COUNT,
};
use crate::signal::{on_progress, StopSignal};

verus! {

/// `rhai::Engine`: the evaluator of scripts, of which the verifier sees
/// nothing.
#[verifier::external_type_specification]
#[verifier::external_body]
pub struct ExEngine(Engine);

/// `rhai::Scope`: the variables of a script. The verifier sees of it what
/// [`scope_keys`] names.
#[verifier::external_type_specification]
#[verifier::external_body]
pub struct ExScope<'a>(Scope<'a>);

/// The variables that a script starts with.
pub type Variables = Scope<'static>;

/// The keys that a scope's variables stand for: each name whose newest
/// entry holds a key, with that key (what `Scope::get_value` finds under
/// the name).
pub uninterp spec fn scope_keys(scope: Variables) -> Map<Seq<char>, Key>;

/// `Scope::new`: a scope without entries.
#[verifier::external_body]
fn scope_new() -> (fresh: Variables)
    ensures
        scope_keys(fresh) =~= Map::empty(),
{
    Scope::new()
}

/// `Scope::push`: adds an entry of the given name and value behind the
/// others, where a look-up by name finds it before any older entry of
/// that name.
#[verifier::external_body]
fn scope_push(scope: &mut Variables, name: &str, key: Key)
    ensures
        scope_keys(*final(scope)) == scope_keys(*old(scope)).insert(name@, key),
{
    scope.push(name, key);
}

/// `Engine::on_progress`: has the engine call the checkpoint between
/// the operations of every script it runs from now on, and end the run
/// where the checkpoint returns a token.
#[verifier::external_body]
fn engine_on_progress(engine: &mut Engine, signal: Arc<StopSignal>) {
    engine.on_progress(move |_| on_progress(&signal).map(Dynamic::from));
}

/// `Engine::run_with_scope`: evaluates a script with the variables of
/// `scope`, which the script may change. What comes back depends on the
/// functions that the engine was given, so nothing is claimed of it.
#[verifier::external_body]
fn engine_run(engine: &Engine, scope: &mut Variables, content: &str) -> Result<
    (),
    Box<EvalAltResult>,
> {
    engine.run_with_scope(scope, content)
}

/// The variables after the first `count` keys of the list were bound
/// on top of `start`, each under its binding name.
pub open spec fn bound(start: Map<Seq<char>, Key>, count: nat) -> Map<Seq<char>, Key>
    decreases count,
{
    if count == 0 {
        start
    } else {
        bound(start, (count - 1) as nat).insert(
            key_at(count - 1).binding_name()->0,
            key_at(count - 1),
        )
    }
}

/// Gives a script its variables for the keys: one for every key that
/// has a variant of its own, under the key's binding name.
pub fn bind_keys(scope: &mut Variables)
    ensures
        scope_keys(*final(scope)) == bound(scope_keys(*old(scope)), KEY_COUNT as nat),
{
    let mut index: usize = 0;
    while index < KEY_COUNT
        invariant
            index <= KEY_COUNT,
            scope_keys(*scope) == bound(scope_keys(*old(scope)), index as nat),
        decreases KEY_COUNT - index,
    {
        proof {
            lemma_ordinal_key_at(index as int);
        }
        match Key::from_index(index) {
            Some(key) => match key.binding() {
                Some(name) => {
                    scope_push(scope, name, key);
                },
                None => {},
            },
            None => {},
        }
        index += 1;
    }
}

/// What a run of the evaluator comes to: its success, or the failure
/// that the evaluator named.
pub open spec fn outcome_of(outcome: Result<(), Box<EvalAltResult>>) -> Result<(), SimulateError> {
    match outcome {
        Ok(_) => Ok(()),
        Err(err) => Err(SimulateError::Rhai(err)),
    }
}

/// Turns what the evaluator returned into the result of a playback.
pub fn run_outcome(outcome: Result<(), Box<EvalAltResult>>) -> (result: Result<(), SimulateError>)
    ensures
        result == outcome_of(outcome),
{
    match outcome {
        Ok(_) => Ok(()),
        Err(err) => Err(SimulateError::Rhai(err)),
    }
}

/// Plays a script once on `engine`, to which the caller has given the
/// operations that scripts call.
///
/// The script starts with a variable for every key, and between any two
/// of its operations the engine looks at `signal` and ends the run where
/// a stop was asked for. A run that ends early, for whatever reason, is an
/// error of the evaluator.
pub fn run(engine: &mut Engine, signal: Arc<StopSignal>, content: String) -> (result: Result<
    (),
    SimulateError,
>)
    ensures
        result is Err ==> result->Err_0 is Rhai,
{
    let mut scope = scope_new();
    bind_keys(&mut scope);
    engine_on_progress(engine, signal);
    run_outcome(engine_run(engine, &mut scope, content.as_str()))
}

/// Plays a recorded macro once.
pub fn simulate_event_data(event_data: &Data, engine: &mut Engine, signal: Arc<StopSignal>) -> (result:
    Result<(), SimulateError>)
    ensures
        result is Err ==> result->Err_0 is Rhai,
{
    let content = String::from_str(event_data.script());
    run(engine, signal, content)
}

impl Data {
    /// Plays the macro once.
    pub fn simulate(&self, engine: &mut Engine, signal: Arc<StopSignal>) -> (result: Result<
        (),
        SimulateError,
    >)
        ensures
            result is Err ==> result->Err_0 is Rhai,
    {
        simulate_event_data(self, engine, signal)
    }
}

/// Once the keys up to a key's place in the list are bound, the key's
/// variable stands for the key, whatever is bound after it.
proof fn lemma_bound_so_far(start: Map<Seq<char>, Key>, count: nat, key: Key)
    requires
        !(key is Unknown),
        key.ordinal() < count <= KEY_COUNT,
    ensures
        bound(start, count).dom().contains(key.binding_name()->0),
        bound(start, count)[key.binding_name()->0] == key,
    decreases count,
{
    let newest = key_at(count - 1);
    lemma_ordinal_key_at(count - 1);
    lemma_key_at_ordinal(key);
    if key.ordinal() < count - 1 {
        lemma_bound_so_far(start, (count - 1) as nat, key);
        lemma_binding_names_differ(newest, key);
    }
}

/// A script finds every key that has a variant of its own under the
/// key's binding name, whatever variables there were before the keys were
/// bound.
pub proof fn lemma_bound_key_is_found(start: Map<Seq<char>, Key>, key: Key)
    requires
        !(key is Unknown),
    ensures
        bound(start, KEY_COUNT as nat).dom().contains(key.binding_name()->0),
        bound(start, KEY_COUNT as nat)[key.binding_name()->0] == key,
{
    lemma_key_at_ordinal(key);
    lemma_bound_so_far(start, KEY_COUNT as nat, key);
}

/// The name that the encoder writes for a key is the variable of that
/// key, for every key that has a variant of its own.
pub proof fn lemma_written_name_finds_key(start: Map<Seq<char>, Key>, key: Key)
    requires
        !(key is Unknown),
    ensures
        bound(start, KEY_COUNT as nat).dom().contains(key.name()),
        bound(start, KEY_COUNT as nat)[key.name()] == key,
{
    lemma_bound_key_is_found(start, key);
}

} // verus!
