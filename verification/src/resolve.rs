//! What a requested setting comes to, once it is held against the choices of
//! an earlier run.
//!
//! Two features add to the indexes that the node keeps of its history. Such a
//! feature cannot be switched on over a database that was built without it:
//! the index would miss what came before. It can be switched on when the node
//! first starts, and switched off at any time.

use vstd::prelude::*;
use crate::mode::Mode;
use crate::pruning::Algorithm;
use crate::switch::Switch;
use crate::user_defaults::UserDefaults;

verus! {

/// Whether switching a feature as asked calls for the database to be built
/// anew: it does where the feature is switched on, an earlier run has left a
/// database behind, and that run went without the feature.
pub open spec fn needs_resync(is_first_launch: bool, switch: Switch, persisted: bool) -> bool {
    !is_first_launch && switch == Switch::On && !persisted
}

/// Whether the feature ends up enabled, or `None` where the request calls for
/// a resync and is refused.
pub open spec fn switch_outcome(is_first_launch: bool, switch: Switch, persisted: bool) -> Option<
    bool,
> {
    if needs_resync(is_first_launch, switch, persisted) {
        None
    } else {
        Some(
            match switch {
                Switch::On => true,
                Switch::Off => false,
                Switch::Auto => persisted,
            },
        )
    }
}

/// Of all combinations of first launch, switch and persisted flag exactly one
/// is refused: switching on, after an earlier run, what that run went
/// without. Switching on is otherwise granted, switching off always is, and
/// the automatic choice keeps what was persisted.
pub proof fn lemma_switch_table(is_first_launch: bool, switch: Switch, persisted: bool)
    ensures
        switch_outcome(is_first_launch, switch, persisted) is None <==> !is_first_launch && switch
            == Switch::On && !persisted,
        switch == Switch::On && (is_first_launch || persisted) ==> switch_outcome(
            is_first_launch,
            switch,
            persisted,
        ) == Some(true),
        switch == Switch::Off ==> switch_outcome(is_first_launch, switch, persisted) == Some(
            false,
        ),
        switch == Switch::Auto ==> switch_outcome(is_first_launch, switch, persisted) == Some(
            persisted,
        ),
{
}

/// Whether transaction traces are indexed in this run. Asking for them after
/// a run that kept none is refused: the trace database would have to be built
/// anew.
pub fn tracing_switch_to_bool(switch: Switch, user_defaults: &UserDefaults) -> (resolved: Result<
    bool,
    String,
>)
    ensures
        switch_outcome(user_defaults.is_first_launch, switch, user_defaults.tracing) is Some
            ==> resolved == Ok::<bool, String>(
            switch_outcome(user_defaults.is_first_launch, switch, user_defaults.tracing)->Some_0,
        ),
        switch_outcome(user_defaults.is_first_launch, switch, user_defaults.tracing) is None
            ==> resolved is Err && resolved->Err_0@ == "TraceDB resync required"@,
{
    match (user_defaults.is_first_launch, switch, user_defaults.tracing) {
        (false, Switch::On, false) => Err("TraceDB resync required".to_owned()),
        (_, Switch::On, _) => Ok(true),
        (_, Switch::Off, _) => Ok(false),
        (_, Switch::Auto, def) => Ok(def),
    }
}

/// Whether the fat database is kept in this run. Asking for it after a run
/// that kept none is refused: the database would have to be built anew. The
/// pruning algorithm has no part in the decision.
pub fn fatdb_switch_to_bool(
    switch: Switch,
    user_defaults: &UserDefaults,
    _algorithm: Algorithm,
) -> (resolved: Result<bool, String>)
    ensures
        switch_outcome(user_defaults.is_first_launch, switch, user_defaults.fat_db) is Some
            ==> resolved == Ok::<bool, String>(
            switch_outcome(user_defaults.is_first_launch, switch, user_defaults.fat_db)->Some_0,
        ),
        switch_outcome(user_defaults.is_first_launch, switch, user_defaults.fat_db) is None
            ==> resolved is Err && resolved->Err_0@ == "FatDB resync required"@,
{
    let result = match (user_defaults.is_first_launch, switch, user_defaults.fat_db) {
        (false, Switch::On, false) => Err("FatDB resync required".to_owned()),
        (_, Switch::On, _) => Ok(true),
        (_, Switch::Off, _) => Ok(false),
        (_, Switch::Auto, def) => Ok(def),
    };
    result
}

/// The operating mode of this run: the one asked for, or the persisted one
/// where none was asked for.
pub open spec fn resolve_mode(switch: Option<Mode>, persisted: Mode) -> Mode {
    match switch {
        Some(mode) => mode,
        None => persisted,
    }
}

/// A mode that was asked for is the mode of the run, whatever was persisted;
/// where none was asked for, the persisted mode is.
pub proof fn lemma_requested_mode_wins(requested: Mode, persisted: Mode, other: Mode)
    ensures
        resolve_mode(Some(requested), persisted) == requested,
        resolve_mode(Some(requested), persisted) == resolve_mode(Some(requested), other),
        resolve_mode(None, persisted) == persisted,
{
}

/// The operating mode to run in. This never fails.
pub fn mode_switch_to_bool(switch: Option<Mode>, user_defaults: &UserDefaults) -> (resolved: Result<
    Mode,
    String,
>)
    ensures
        resolved == Ok::<Mode, String>(resolve_mode(switch, user_defaults.mode)),
{
    Ok(
        match switch {
            Some(mode) => mode,
            None => user_defaults.mode,
        },
    )
}

} // verus!
