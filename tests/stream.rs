use live_visualizer::control::{decode_command, Command, Config};
use live_visualizer::fanout::Fanout;
use live_visualizer::frame::{frame_len, package_frame};
use live_visualizer::lcg::lcg_next;
use live_visualizer::scheduler::{engine_of, pace_delay_us, plan_tick, Engine, IDLE_INTERVAL_US};

#[test]
fn lcg_next_advances_state() {
    let mut s: u64 = 1;
    let a = lcg_next(&mut s);
    assert_eq!(a, 6364136223846793006);
    assert_eq!(s, a);
    let b = lcg_next(&mut s);
    assert_eq!(b, a.wrapping_mul(6364136223846793005).wrapping_add(1));
    let mut z: u64 = 0;
    assert_eq!(lcg_next(&mut z), 1);
}

#[test]
fn decode_known_kinds() {
    assert_eq!(decode_command("engine", 2), Some(Command::SelectEngine(2)));
    assert_eq!(decode_command("engine", 258), Some(Command::SelectEngine(2)));
    assert_eq!(decode_command("fps", 30), Some(Command::SetTargetFps(30)));
    assert_eq!(decode_command("vertices", 1000), Some(Command::SetPointCount(1000)));
}

#[test]
fn decode_unknown_kind_is_dropped() {
    assert_eq!(decode_command("speed", 3), None);
    assert_eq!(decode_command("", 3), None);
    assert_eq!(decode_command("Engine", 1), None);
}

#[test]
fn config_rejects_count_over_capacity() {
    assert!(Config::new(0, 60, 11, 10).is_none());
    let c = Config::new(0, 60, 10, 10).unwrap();
    assert_eq!(c.point_count, 10);
}

#[test]
fn apply_point_count_within_and_over_capacity() {
    let mut c = Config::new(0, 60, 50, 100).unwrap();
    assert_eq!(c.apply(Command::SetPointCount(101)), None);
    assert_eq!(c.point_count, 50);
    assert_eq!(c.apply(Command::SetPointCount(100)), Some(100));
    assert_eq!(c.point_count, 100);
    // the same count again still regenerates, to the same size
    assert_eq!(c.apply(Command::SetPointCount(100)), Some(100));
    assert_eq!(c.point_count, 100);
}

#[test]
fn apply_engine_and_fps() {
    let mut c = Config::new(0, 60, 5, 10).unwrap();
    assert_eq!(c.apply(Command::SelectEngine(2)), None);
    assert_eq!(c.engine, 2);
    assert_eq!(c.apply(Command::SetTargetFps(0)), None);
    assert_eq!(c.target_fps, 0);
    assert_eq!(c.point_count, 5);
}

#[test]
fn engine_selectors() {
    assert_eq!(engine_of(0), Some(Engine::Reference));
    assert_eq!(engine_of(1), Some(Engine::NativeA));
    assert_eq!(engine_of(2), Some(Engine::NativeB));
    assert_eq!(engine_of(3), None);
    assert_eq!(engine_of(255), None);
}

#[test]
fn idle_tick_does_not_publish() {
    let c = Config::new(1, 30, 7, 10).unwrap();
    let p = plan_tick(&c, 0);
    assert!(!p.publish);
    assert_eq!(p.count, 7);
    assert_eq!(p.target_fps, 30);
    assert!(plan_tick(&c, 3).publish);
}

#[test]
fn engine_switch_affects_next_tick() {
    let mut c = Config::new(0, 60, 7, 10).unwrap();
    assert_eq!(plan_tick(&c, 1).engine, Some(Engine::Reference));
    c.apply(Command::SelectEngine(1));
    assert_eq!(plan_tick(&c, 1).engine, Some(Engine::NativeA));
    c.apply(Command::SelectEngine(9));
    assert_eq!(plan_tick(&c, 1).engine, None);
}

#[test]
fn pacing_at_rate_zero_and_positive() {
    assert_eq!(pace_delay_us(0, 0), IDLE_INTERVAL_US);
    assert_eq!(pace_delay_us(0, 1_000_000), 5_000);
    assert_eq!(pace_delay_us(60, 0), 16_666);
    assert_eq!(pace_delay_us(60, 6_666), 10_000);
    assert_eq!(pace_delay_us(60, 16_666), 0);
    assert_eq!(pace_delay_us(60, 50_000), 0);
    assert_eq!(pace_delay_us(1, 1), 999_999);
    assert_eq!(pace_delay_us(2_000_000, 0), 0);
}

#[test]
fn frame_length_formula() {
    assert_eq!(frame_len(0), 4);
    assert_eq!(frame_len(1), 16);
    assert_eq!(frame_len(50_000), 600_004);
    assert_eq!(frame_len(1_000), 12_004);
    assert_eq!(frame_len(u32::MAX), 4 + (u32::MAX as u64) * 12);
}

#[test]
fn package_frame_layout() {
    let points: Vec<u8> = (0u8..36).collect();
    let f = package_frame([9, 8, 7, 6], &points, 2);
    assert_eq!(f.len(), 4 + 2 * 12);
    assert_eq!(&f[..4], &[9, 8, 7, 6]);
    assert_eq!(&f[4..], &points[..24]);
    let empty = package_frame([1, 2, 3, 4], &points, 0);
    assert_eq!(empty, vec![1, 2, 3, 4]);
}

#[test]
fn package_frame_of_float_coordinates() {
    let coords: [f32; 6] = [1.0, -2.5, 0.25, 3.0, 4.0, 5.0];
    let mut bytes: Vec<u8> = Vec::new();
    for c in coords.iter() {
        bytes.extend_from_slice(&c.to_ne_bytes());
    }
    let f = package_frame(12.5f32.to_ne_bytes(), &bytes, 2);
    assert_eq!(f.len(), 4 + 2 * 3 * 4);
    assert_eq!(f32::from_ne_bytes([f[0], f[1], f[2], f[3]]), 12.5);
    assert_eq!(f32::from_ne_bytes([f[8], f[9], f[10], f[11]]), -2.5);
}

#[test]
fn scenario_reconfigure_point_count() {
    let mut c = Config::new(0, 60, 50_000, 1_000_000).unwrap();
    let p = plan_tick(&c, 1);
    assert!(p.publish);
    assert_eq!(p.engine, Some(Engine::Reference));
    assert_eq!(frame_len(p.count), 600_004);
    let cmd = decode_command("vertices", 1000).unwrap();
    assert_eq!(c.apply(cmd), Some(1000));
    let next = plan_tick(&c, 1);
    assert_eq!(frame_len(next.count), 12_004);
}

#[test]
fn fanout_full_subscriber_drops_other_receives() {
    let mut f = Fanout::new(2);
    let slow = f.subscribe().unwrap();
    let fast = f.subscribe().unwrap();
    assert_ne!(slow, fast);
    assert_eq!(f.subscriber_count(), 2);
    f.publish(&vec![1]);
    f.publish(&vec![2]);
    assert_eq!(f.receive(fast), Some(vec![1]));
    assert_eq!(f.receive(fast), Some(vec![2]));
    // slow is full now; the third frame is dropped for it only
    f.publish(&vec![3]);
    assert_eq!(f.receive(fast), Some(vec![3]));
    assert_eq!(f.receive(fast), None);
    assert_eq!(f.receive(slow), Some(vec![1]));
    assert_eq!(f.receive(slow), Some(vec![2]));
    assert_eq!(f.receive(slow), None);
}

#[test]
fn fanout_order_and_unsubscribe() {
    let mut f = Fanout::new(4);
    assert_eq!(f.subscriber_count(), 0);
    f.publish(&vec![0]);
    let a = f.subscribe().unwrap();
    f.publish(&vec![5, 6]);
    f.publish(&vec![7]);
    assert_eq!(f.receive(a), Some(vec![5, 6]));
    assert_eq!(f.receive(a), Some(vec![7]));
    assert!(f.unsubscribe(a));
    assert!(!f.unsubscribe(a));
    assert_eq!(f.subscriber_count(), 0);
    assert_eq!(f.receive(a), None);
    let b = f.subscribe().unwrap();
    assert_ne!(a, b);
}
