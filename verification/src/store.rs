//! What the application does with the outcome of each step against its
//! persistent store: the store itself is reached by the application shell,
//! which hands each outcome to these functions.

use vstd::prelude::*;

verus! {

/// The file that holds the store.
pub const STORE_PATH: &'static str = "copylot_store.bin";

/// The step against the store that failed.
#[derive(Clone, Copy, Debug, PartialEq, Eq)]
pub enum StoreFailure {
    /// The store could not be opened.
    Open,
    /// The stored value could not be read back as the expected type.
    Parse,
    /// The value could not be turned into its stored form.
    Serialize,
    /// The store could not be saved.
    Save,
}

/// What a lookup of a key found.
#[derive(Clone, Debug)]
pub enum Lookup<T> {
    /// The key holds a value that reads back as `T`.
    Parsed(T),
    /// The key holds a value that does not read back as `T`.
    Unparsable,
    /// The key is absent.
    Missing,
}

/// What loading does after the lookup.
#[derive(Debug)]
pub enum LoadStep<T> {
    /// Loading ends with this result.
    Done(Result<T, StoreFailure>),
    /// Loading stores this default under the key, then returns it.
    StoreDefault(T),
}

/// The step that follows a lookup: a value that reads back is the result,
/// one that does not is a `Parse` failure, and an absent key has the default
/// stored and returned.
pub fn after_lookup<T>(found: Lookup<T>, default: T) -> (r: LoadStep<T>)
    ensures
        found matches Lookup::Parsed(v) ==> r == LoadStep::Done(Ok::<T, StoreFailure>(v)),
        found matches Lookup::Unparsable ==> r == LoadStep::<T>::Done(Err(StoreFailure::Parse)),
        found matches Lookup::Missing ==> r == LoadStep::StoreDefault(default),
{
    match found {
        Lookup::Parsed(v) => LoadStep::Done(Ok(v)),
        Lookup::Unparsable => LoadStep::Done(Err(StoreFailure::Parse)),
        Lookup::Missing => LoadStep::StoreDefault(default),
    }
}

/// The result of loading once the default has been handed to the store:
/// the default, unless it could not be serialised.
pub fn after_default_stored<T>(default: T, serialized: bool) -> (r: Result<T, StoreFailure>)
    ensures
        serialized ==> r == Ok::<T, StoreFailure>(default),
        !serialized ==> r == Err::<T, StoreFailure>(StoreFailure::Serialize),
{
    if serialized {
        Ok(default)
    } else {
        Err(StoreFailure::Serialize)
    }
}

/// The value a read gives: what was loaded, or the fallback when loading
/// failed.
pub fn settle_read<T>(loaded: Result<T, StoreFailure>, fallback: T) -> (r: T)
    ensures
        r == (match loaded {
            Ok(v) => v,
            Err(_) => fallback,
        }),
{
    match loaded {
        Ok(v) => v,
        Err(_) => fallback,
    }
}

/// The value a write gives: what the store took, or, when writing failed,
/// the value that was to be written.
pub fn settle_write<T>(written: Result<T, StoreFailure>, intended: T) -> (r: T)
    ensures
        r == (match written {
            Ok(v) => v,
            Err(_) => intended,
        }),
{
    match written {
        Ok(v) => v,
        Err(_) => intended,
    }
}

/// The value a reset gives. `rewrite` is `None` when the store could not be
/// opened or the removal of the key could not be saved; otherwise it is the
/// outcome of writing the value again. Every failure gives the fallback.
pub fn settle_reset<T>(rewrite: Option<Result<T, StoreFailure>>, fallback: T) -> (r: T)
    ensures
        r == (match rewrite {
            Some(Ok(v)) => v,
            _ => fallback,
        }),
{
    match rewrite {
        Some(Ok(v)) => v,
        _ => fallback,
    }
}

} // verus!
