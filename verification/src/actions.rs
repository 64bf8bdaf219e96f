//! The optional steps at the end of a run: reporting the elapsed time and
//! notifying about updates.
use vstd::prelude::*;

verus! {

/// Runs `f` when benchmarking was asked for.
pub fn maybe_benchmark<F: FnOnce()>(benchmark: bool, f: F)
    requires
        benchmark ==> f.requires(()),
    ensures
        benchmark ==> f.ensures((), ()),
{
    if benchmark {
        f();
    }
}

/// The notification is sent: it was asked for and there is something to
/// report.
pub open spec fn notifies(notify: bool, updates: Seq<String>) -> bool {
    notify && updates.len() > 0
}

/// Sends the notification about `updates` through `notify_fn` when it was
/// asked for and there are updates; passes on its failure.
pub fn maybe_notify<E, F: FnOnce(&[String]) -> Result<(), E>>(
    notify: bool,
    updates: &[String],
    notify_fn: F,
) -> (r: Result<(), E>)
    requires
        notifies(notify, updates@) ==> notify_fn.requires((updates,)),
    ensures
        notifies(notify, updates@) ==> notify_fn.ensures((updates,), r),
        !notifies(notify, updates@) ==> r is Ok,
{
    if notify && updates.len() > 0 {
        notify_fn(updates)
    } else {
        Ok(())
    }
}

} // verus!
