use frame_loop::window::{
    PersistentWindow, PersistentWindowManager, WindowBehavior, WindowIdGenerator,
};

/// A behaviour that logs its id into the shared state on every call,
/// stops after a configured number of calls, and can spawn one
/// ever-running sibling on its first call.
struct TestBehavior {
    stop_after: Option<u32>,
    spawn_on_first_call: bool,
    calls: u32,
}

impl TestBehavior {
    fn forever() -> TestBehavior {
        TestBehavior { stop_after: None, spawn_on_first_call: false, calls: 0 }
    }

    fn stops_after(n: u32) -> TestBehavior {
        TestBehavior { stop_after: Some(n), spawn_on_first_call: false, calls: 0 }
    }

    fn spawner() -> TestBehavior {
        TestBehavior { stop_after: None, spawn_on_first_call: true, calls: 0 }
    }
}

impl WindowBehavior<Vec<u64>> for TestBehavior {
    fn render(
        &mut self,
        id: u64,
        spawned: &mut Vec<TestBehavior>,
        _gui: &egui::Context,
        log: &mut Vec<u64>,
    ) -> bool {
        self.calls += 1;
        log.push(id);
        if self.spawn_on_first_call && self.calls == 1 {
            spawned.push(TestBehavior::forever());
        }
        match self.stop_after {
            None => true,
            Some(n) => self.calls < n,
        }
    }
}

fn count(log: &[u64], id: u64) -> usize {
    log.iter().filter(|&&x| x == id).count()
}

#[test]
fn ever_running_window_renders_once_per_pass() {
    let gui = egui::Context::default();
    let mut ids = WindowIdGenerator::new();
    let mut mgr: PersistentWindowManager<TestBehavior> = PersistentWindowManager::new();
    let mut log: Vec<u64> = Vec::new();

    mgr.push(PersistentWindow::new(&mut ids, TestBehavior::forever()));
    for pass in 1..=5 {
        mgr.render(&mut log, &gui, &mut ids);
        assert_eq!(log.len(), pass);
    }
    assert_eq!(count(&log, log[0]), 5);
}

#[test]
fn window_stopping_on_its_third_call_renders_three_times() {
    let gui = egui::Context::default();
    let mut ids = WindowIdGenerator::new();
    let mut mgr: PersistentWindowManager<TestBehavior> = PersistentWindowManager::new();
    let mut log: Vec<u64> = Vec::new();

    mgr.push(PersistentWindow::new(&mut ids, TestBehavior::stops_after(3)));
    for _ in 0..6 {
        mgr.render(&mut log, &gui, &mut ids);
    }
    assert_eq!(log.len(), 3);
    assert_eq!(count(&log, log[0]), 3);
}

#[test]
fn spawned_sibling_waits_a_pass_and_gets_a_greater_id() {
    let gui = egui::Context::default();
    let mut ids = WindowIdGenerator::new();
    let mut mgr: PersistentWindowManager<TestBehavior> = PersistentWindowManager::new();
    let mut log: Vec<u64> = Vec::new();

    mgr.push(PersistentWindow::new(&mut ids, TestBehavior::spawner()));
    mgr.render(&mut log, &gui, &mut ids);
    // The sibling spawned during the pass is not rendered by it.
    assert_eq!(log.len(), 1);
    let spawner_id = log[0];

    mgr.render(&mut log, &gui, &mut ids);
    // From the next pass on the sibling renders, after its spawner.
    assert_eq!(log.len(), 3);
    assert_eq!(log[1], spawner_id);
    let sibling_id = log[2];
    assert!(sibling_id > spawner_id);

    mgr.render(&mut log, &gui, &mut ids);
    assert_eq!(log.len(), 5);
    assert_eq!(&log[3..], &[spawner_id, sibling_id]);
}

#[test]
fn two_windows_one_stops_after_one_call() {
    let gui = egui::Context::default();
    let mut ids = WindowIdGenerator::new();
    let mut mgr: PersistentWindowManager<TestBehavior> = PersistentWindowManager::new();
    let mut log: Vec<u64> = Vec::new();

    let a = PersistentWindow::new(&mut ids, TestBehavior::stops_after(1));
    let b = PersistentWindow::new(&mut ids, TestBehavior::forever());
    mgr.push(a);
    mgr.push(b);

    mgr.render(&mut log, &gui, &mut ids);
    mgr.render(&mut log, &gui, &mut ids);
    mgr.render(&mut log, &gui, &mut ids);

    // Pass one renders [A, B] and drops A; passes two and three render [B].
    assert_eq!(log.len(), 4);
    let id_a = log[0];
    let id_b = log[1];
    assert!(id_a != id_b);
    assert_eq!(&log, &[id_a, id_b, id_b, id_b]);
    assert_eq!(count(&log, id_a), 1);
    assert_eq!(count(&log, id_b), 3);
}

#[test]
fn render_on_empty_manager_does_nothing() {
    let gui = egui::Context::default();
    let mut ids = WindowIdGenerator::new();
    let mut mgr: PersistentWindowManager<TestBehavior> = PersistentWindowManager::new();
    let mut log: Vec<u64> = Vec::new();

    mgr.render(&mut log, &gui, &mut ids);
    mgr.render(&mut log, &gui, &mut ids);
    // No behaviour ran and the shared generator was not advanced.
    assert!(log.is_empty());
    assert_eq!(ids.fresh_id(), 0);
}

#[test]
fn generator_advances_exactly_per_admitted_window() {
    let gui = egui::Context::default();
    let mut ids = WindowIdGenerator::new();
    let mut mgr: PersistentWindowManager<TestBehavior> = PersistentWindowManager::new();
    let mut log: Vec<u64> = Vec::new();

    mgr.push(PersistentWindow::new(&mut ids, TestBehavior::spawner()));
    mgr.render(&mut log, &gui, &mut ids);
    mgr.render(&mut log, &gui, &mut ids);
    // Two allocations happened: the spawner and its one sibling.
    assert_eq!(ids.fresh_id(), 2);
}

#[test]
fn apply_continuation_keeps_or_drops_by_the_flag() {
    let gui = egui::Context::default();
    let mut ids = WindowIdGenerator::new();
    let mut mgr: PersistentWindowManager<TestBehavior> = PersistentWindowManager::new();
    let mut log: Vec<u64> = Vec::new();

    let kept = PersistentWindow::new(&mut ids, TestBehavior::forever());
    let dropped = PersistentWindow::new(&mut ids, TestBehavior::forever());
    mgr.apply_continuation(kept, true);
    mgr.apply_continuation(dropped, false);
    mgr.render(&mut log, &gui, &mut ids);
    // Only the retained window is there to render, with the first id.
    assert_eq!(log, vec![0]);
}

#[test]
fn admit_spawned_appends_in_order_with_consecutive_ids() {
    let gui = egui::Context::default();
    let mut ids = WindowIdGenerator::new();
    let mut mgr: PersistentWindowManager<TestBehavior> = PersistentWindowManager::new();
    let mut log: Vec<u64> = Vec::new();

    mgr.push(PersistentWindow::new(&mut ids, TestBehavior::forever()));
    mgr.admit_spawned(&mut ids, vec![TestBehavior::stops_after(1), TestBehavior::forever()]);
    mgr.render(&mut log, &gui, &mut ids);
    // All three render in order: the pushed window, then the admitted two
    // with the generator's consecutive ids.
    assert_eq!(log, vec![0, 1, 2]);
    mgr.render(&mut log, &gui, &mut ids);
    // The admitted stop-after-one window is gone.
    assert_eq!(&log[3..], &[0, 2]);
}

#[test]
fn generator_hands_out_consecutive_ids() {
    let mut ids = WindowIdGenerator::new();
    assert_eq!(ids.fresh_id(), 0);
    assert_eq!(ids.fresh_id(), 1);
    assert_eq!(ids.fresh_id(), 2);
}

#[test]
fn window_render_invokes_the_behavior_with_its_own_id() {
    let gui = egui::Context::default();
    let mut ids = WindowIdGenerator::new();
    let mut log: Vec<u64> = Vec::new();
    let mut spawned: Vec<TestBehavior> = Vec::new();

    let first_id = {
        let mut w = PersistentWindow::new(&mut ids, TestBehavior::forever());
        assert!(w.render(&mut spawned, &gui, &mut log));
        log[0]
    };
    let mut stopping = PersistentWindow::new(&mut ids, TestBehavior::stops_after(1));
    assert!(!stopping.render(&mut spawned, &gui, &mut log));
    assert_eq!(log.len(), 2);
    assert!(log[1] > first_id);
    assert!(spawned.is_empty());
}

#[test]
fn ids_are_unique_across_managers_sharing_a_generator() {
    let gui = egui::Context::default();
    let mut ids = WindowIdGenerator::new();
    let mut first: PersistentWindowManager<TestBehavior> = PersistentWindowManager::new();
    let mut second: PersistentWindowManager<TestBehavior> = PersistentWindowManager::new();
    let mut log: Vec<u64> = Vec::new();

    first.push(PersistentWindow::new(&mut ids, TestBehavior::forever()));
    second.push(PersistentWindow::new(&mut ids, TestBehavior::forever()));
    first.render(&mut log, &gui, &mut ids);
    second.render(&mut log, &gui, &mut ids);
    assert_eq!(log.len(), 2);
    assert!(log[0] != log[1]);
}
