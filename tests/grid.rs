use dots::coord::Coord;
use dots::dna::Dna;
use dots::dots::Dot;
use dots::effect::Effect;
use dots::scene::Scene;
use std::sync::Arc;

fn c(x: i64, y: i64) -> Coord {
    Coord { x, y }
}

#[test]
fn effects_outside_the_grid_are_dropped() {
    let mut s = Scene::new(c(10, 10), 10);
    let r = s.deliver(c(10, 0), Effect::ENERGY(100, None, None));
    assert!(!r.created);
    assert!(r.reply.is_none());
    assert_eq!(s.len(), 0);
    assert!(s.at(c(10, 0)).is_none());
    let r = s.deliver(c(-1, 3), Effect::SEED(Dna::new([1, 1])));
    assert!(!r.created);
    assert_eq!(s.len(), 0);
    assert!(s.describe().is_empty());
}

#[test]
fn energy_is_conserved_between_neighbours() {
    let mut s = Scene::new(c(10, 10), 10);
    assert!(s.push_dot(c(2, 2), Dot::new(c(2, 2), None, 500)));
    assert!(s.push_dot(c(3, 2), Dot::new(c(3, 2), None, 500)));
    let r = s.deliver(c(3, 2), Effect::ENERGY(-100, None, Some(c(2, 2))));
    assert!(!r.created);
    assert_eq!(s.at(c(3, 2)).unwrap().energy, 400);
    let (to, back) = r.reply.expect("a reciprocal effect");
    assert_eq!(to, c(2, 2));
    assert!(matches!(back, Effect::ENERGY(100, None, None)));
    let r2 = s.deliver(to, back);
    assert!(r2.reply.is_none());
    assert_eq!(s.at(c(2, 2)).unwrap().energy, 600);
}

#[test]
fn many_effects_to_one_empty_cell_create_one_agent() {
    let mut s = Scene::new(c(10, 10), 10);
    let mut created = 0;
    for i in 0..100 {
        let e = if i % 2 == 0 {
            Effect::ENERGY(1, None, None)
        } else {
            Effect::SEED(Dna::new([i, i]))
        };
        if s.deliver(c(5, 5), e).created {
            created += 1;
        }
    }
    assert_eq!(created, 1);
    assert_eq!(s.len(), 1);
    assert_eq!(s.at(c(5, 5)).unwrap().pos, c(5, 5));
}

#[test]
fn a_lazily_created_agent_is_dormant_and_takes_the_effect() {
    let mut s = Scene::new(c(10, 10), 10);
    let r = s.deliver(c(4, 4), Effect::ENERGY(250, None, Some(c(4, 5))));
    assert!(r.created);
    let d = s.at(c(4, 4)).unwrap();
    assert_eq!(d.energy, 250);
    assert_eq!(d.dna(), None);
    assert!(matches!(r.reply, Some((Coord { x: 4, y: 5 }, Effect::ENERGY(-250, None, None)))));
}

#[test]
fn push_dot_keeps_the_first_agent_of_a_cell() {
    let mut s = Scene::new(c(4, 4), 1);
    assert!(s.push_dot(c(1, 1), Dot::new(c(1, 1), None, 100)));
    assert!(!s.push_dot(c(1, 1), Dot::new(c(1, 1), None, 900)));
    assert!(!s.push_dot(c(4, 1), Dot::new(c(4, 1), None, 900)));
    assert_eq!(s.len(), 1);
    assert_eq!(s.at(c(1, 1)).unwrap().energy, 100);
}

#[test]
fn describe_lists_agents_in_placement_order() {
    let mut s = Scene::new(c(10, 10), 10);
    s.push_dot(c(3, 2), Dot::new(c(3, 2), None, 500));
    let w: u64 = 1 | (2 << 6) | (63 << 12);
    s.push_dot(c(0, 9), Dot::new(c(0, 9), Some(Dna::new([w, 0])), 800));
    let v = s.describe();
    assert_eq!(v.len(), 2);
    assert_eq!(v[0], (30, 20, 10, ([255, 255, 255], 750)));
    assert_eq!(v[1], (0, 90, 10, ([65, 66, 127], 800)));
}

#[test]
fn ticking_a_cell_runs_its_agent() {
    let mut s = Scene::new(c(10, 10), 10);
    assert!(s.tick(c(1, 1)).is_none());
    s.push_dot(c(1, 1), Dot::new(c(1, 1), None, 100));
    let (delay, out) = s.tick(c(1, 1)).unwrap();
    assert_eq!(delay, 1020);
    assert!(out.is_none());
    assert_eq!(s.at(c(1, 1)).unwrap().energy, 105);
}

fn runtime() -> tokio::runtime::Runtime {
    tokio::runtime::Builder::new_multi_thread()
        .worker_threads(4)
        .build()
        .unwrap()
}

#[test]
fn concurrent_effects_to_one_empty_cell_create_one_agent() {
    let scene = Arc::new(futures::lock::Mutex::new(Scene::new(c(10, 10), 10)));
    let created = runtime().block_on(async {
        let mut tasks = Vec::new();
        for i in 0..100u64 {
            let scene = scene.clone();
            tasks.push(tokio::spawn(async move {
                let e = if i % 2 == 0 {
                    Effect::ENERGY(1, None, None)
                } else {
                    Effect::SEED(Dna::new([i, i]))
                };
                scene.lock().await.deliver(c(5, 5), e).created
            }));
        }
        let mut n = 0;
        for t in tasks {
            if t.await.unwrap() {
                n += 1;
            }
        }
        n
    });
    assert_eq!(created, 1);
    let s = runtime().block_on(async { scene.lock().await.len() });
    assert_eq!(s, 1);
}

#[test]
fn concurrent_pushes_to_one_cell_keep_the_first() {
    let scene = Arc::new(futures::lock::Mutex::new(Scene::new(c(10, 10), 10)));
    let winners = runtime().block_on(async {
        let mut tasks = Vec::new();
        for k in 1..=100u32 {
            let scene = scene.clone();
            tasks.push(tokio::spawn(async move {
                let placed = scene
                    .lock()
                    .await
                    .push_dot(c(6, 6), Dot::new(c(6, 6), None, k));
                if placed {
                    Some(k)
                } else {
                    None
                }
            }));
        }
        let mut w = Vec::new();
        for t in tasks {
            if let Some(k) = t.await.unwrap() {
                w.push(k);
            }
        }
        w
    });
    assert_eq!(winners.len(), 1);
    let (len, energy) = runtime().block_on(async {
        let s = scene.lock().await;
        (s.len(), s.at(c(6, 6)).unwrap().energy)
    });
    assert_eq!(len, 1);
    assert_eq!(energy, winners[0]);
}
