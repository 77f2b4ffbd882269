//! Loop guards. Each one looks at a `Result` or an `Option` once and decides
//! what the enclosing loop does next: go on with the inner value, skip to the
//! next iteration, or leave the loop. The negative decisions carry what the
//! caller reports on the error stream before it jumps.
use vstd::prelude::*;
use vstd::string::StringExecFns;

verus! {

/// What a loop does after a guard.
pub enum LoopStep<T, D> {
    /// Go on with this value in the current iteration.
    Yield(T),
    /// Report the diagnostic, then skip to the next iteration.
    Next(D),
    /// Report the diagnostic, then leave the loop.
    Exit(D),
}

/// `Ok(x)` yields `x`; `Err(e)` skips to the next iteration, reporting `e`.
pub fn continue_on_err<T, E>(r: Result<T, E>) -> (s: LoopStep<T, E>)
    ensures
        match r {
            Ok(x) => s == LoopStep::<T, E>::Yield(x),
            Err(e) => s == LoopStep::<T, E>::Next(e),
        },
{
    match r {
        Ok(x) => LoopStep::Yield(x),
        Err(e) => LoopStep::Next(e),
    }
}

/// `Ok(x)` yields `x`; `Err(e)` leaves the loop, reporting `e`.
pub fn break_on_err<T, E>(r: Result<T, E>) -> (s: LoopStep<T, E>)
    ensures
        match r {
            Ok(x) => s == LoopStep::<T, E>::Yield(x),
            Err(e) => s == LoopStep::<T, E>::Exit(e),
        },
{
    match r {
        Ok(x) => LoopStep::Yield(x),
        Err(e) => LoopStep::Exit(e),
    }
}

/// As `continue_on_err`, with a label reported before the error. The label is
/// computed only on `Err`: its precondition is owed on that case alone, so no
/// body that calls it on `Ok` would verify.
pub fn continue_on_err_with<T, E, L, F: FnOnce() -> L>(r: Result<T, E>, label: F) -> (s:
    LoopStep<T, (L, E)>)
    requires
        r is Err ==> label.requires(()),
    ensures
        match r {
            Ok(x) => s == LoopStep::<T, (L, E)>::Yield(x),
            Err(e) => s is Next && s->Next_0.1 == e && label.ensures((), s->Next_0.0),
        },
{
    match r {
        Ok(x) => LoopStep::Yield(x),
        Err(e) => LoopStep::Next((label(), e)),
    }
}

/// As `break_on_err`, with a label reported before the error. The label is
/// computed only on `Err`.
pub fn break_on_err_with<T, E, L, F: FnOnce() -> L>(r: Result<T, E>, label: F) -> (s: LoopStep<
    T,
    (L, E),
>)
    requires
        r is Err ==> label.requires(()),
    ensures
        match r {
            Ok(x) => s == LoopStep::<T, (L, E)>::Yield(x),
            Err(e) => s is Exit && s->Exit_0.1 == e && label.ensures((), s->Exit_0.0),
        },
{
    match r {
        Ok(x) => LoopStep::Yield(x),
        Err(e) => LoopStep::Exit((label(), e)),
    }
}

/// `Some(x)` yields `x`; `None` skips to the next iteration, with nothing to
/// report.
pub fn continue_on_none<T>(o: Option<T>) -> (s: LoopStep<T, ()>)
    ensures
        match o {
            Some(x) => s == LoopStep::<T, ()>::Yield(x),
            None => s == LoopStep::<T, ()>::Next(()),
        },
{
    match o {
        Some(x) => LoopStep::Yield(x),
        None => LoopStep::Next(()),
    }
}

/// `Some(x)` yields `x`; `None` leaves the loop, with nothing to report.
pub fn break_on_none<T>(o: Option<T>) -> (s: LoopStep<T, ()>)
    ensures
        match o {
            Some(x) => s == LoopStep::<T, ()>::Yield(x),
            None => s == LoopStep::<T, ()>::Exit(()),
        },
{
    match o {
        Some(x) => LoopStep::Yield(x),
        None => LoopStep::Exit(()),
    }
}

/// As `continue_on_none`, reporting a message on `None`. The message is
/// computed only on `None`.
pub fn continue_on_none_with<T, M, F: FnOnce() -> M>(o: Option<T>, message: F) -> (s: LoopStep<
    T,
    M,
>)
    requires
        o is None ==> message.requires(()),
    ensures
        match o {
            Some(x) => s == LoopStep::<T, M>::Yield(x),
            None => s is Next && message.ensures((), s->Next_0),
        },
{
    match o {
        Some(x) => LoopStep::Yield(x),
        None => LoopStep::Next(message()),
    }
}

/// As `break_on_none`, reporting a message on `None`. The message is computed
/// only on `None`.
pub fn break_on_none_with<T, M, F: FnOnce() -> M>(o: Option<T>, message: F) -> (s: LoopStep<
    T,
    M,
>)
    requires
        o is None ==> message.requires(()),
    ensures
        match o {
            Some(x) => s == LoopStep::<T, M>::Yield(x),
            None => s is Exit && message.ensures((), s->Exit_0),
        },
{
    match o {
        Some(x) => LoopStep::Yield(x),
        None => LoopStep::Exit(message()),
    }
}

/// The line reported for an error `detail` under `label`: `"label: detail"`.
pub fn labelled_line(label: &str, detail: &str) -> (r: String)
    ensures
        r@ == label@ + ": "@ + detail@,
{
    let mut r = String::from_str(label);
    r.append(": ");
    r.append(detail);
    r
}

} // verus!
