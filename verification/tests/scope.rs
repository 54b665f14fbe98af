use std::marker::PhantomData;
use thread_local_scope::{local_scope, LocalScope};

struct Probe<T>(PhantomData<T>);

trait WithoutMarker {
    fn is_send(&self) -> bool {
        false
    }
    fn is_sync(&self) -> bool {
        false
    }
}

impl<T> WithoutMarker for Probe<T> {}

struct SendProbe<T>(Probe<T>);
struct SyncProbe<T>(Probe<T>);

impl<T: Send> SendProbe<T> {
    fn is_send(&self) -> bool {
        true
    }
}

impl<T: Sync> SyncProbe<T> {
    fn is_sync(&self) -> bool {
        true
    }
}

impl<T> std::ops::Deref for SendProbe<T> {
    type Target = Probe<T>;
    fn deref(&self) -> &Probe<T> {
        &self.0
    }
}

impl<T> std::ops::Deref for SyncProbe<T> {
    type Target = Probe<T>;
    fn deref(&self) -> &Probe<T> {
        &self.0
    }
}

fn send_probe<T>() -> SendProbe<T> {
    SendProbe(Probe(PhantomData))
}

fn sync_probe<T>() -> SyncProbe<T> {
    SyncProbe(Probe(PhantomData))
}

#[test]
fn probes_tell_markers_apart() {
    assert!(send_probe::<u8>().is_send());
    assert!(sync_probe::<u8>().is_sync());
    assert!(!send_probe::<std::rc::Rc<u8>>().is_send());
    assert!(!sync_probe::<std::cell::Cell<u8>>().is_sync());
}

#[test]
fn token_is_not_send() {
    assert!(!send_probe::<LocalScope<'static>>().is_send());
}

#[test]
fn token_is_not_sync() {
    assert!(!sync_probe::<LocalScope<'static>>().is_sync());
}

#[test]
fn token_of_a_short_scope_is_confined_too() {
    fn confined<'a>(_scope: LocalScope<'a>) -> bool {
        !send_probe::<LocalScope<'a>>().is_send() && !sync_probe::<LocalScope<'a>>().is_sync()
    }
    assert!(local_scope(|s| confined(s)));
}

#[test]
fn token_is_zero_sized() {
    assert_eq!(std::mem::size_of::<LocalScope<'static>>(), 0);
    assert_eq!(
        std::mem::size_of::<LocalScope<'static>>(),
        std::mem::size_of::<()>()
    );
}

#[test]
fn token_is_copied_freely() {
    let n = local_scope(|s| {
        let first = s;
        let second = s;
        let third = first.clone();
        [first, second, third].len()
    });
    assert_eq!(n, 3);
}

#[test]
fn token_renders_under_its_fixed_label() {
    let text = local_scope(|s| s.debug_text());
    assert_eq!(text, "ThreadLocalScope");
}

#[test]
fn scope_hands_back_what_the_callback_returns() {
    assert_eq!(local_scope(|_| 41u32 + 1), 42);
    let owned = local_scope(|_| String::from("kept"));
    assert_eq!(owned, "kept");
}

#[test]
fn scope_runs_the_callback_exactly_once() {
    let mut runs = 0u32;
    local_scope(|_| runs += 1);
    assert_eq!(runs, 1);
}

#[test]
fn scopes_nest() {
    let sum = local_scope(|_outer| 1 + local_scope(|_inner| 2 + local_scope(|_| 3)));
    assert_eq!(sum, 6);
}
