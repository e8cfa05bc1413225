use raytracer::path::{advance, trace_path, Bounce, PathEnd, RayTracer, Step, MAX_DEPTH};
use raytracer::traced::TracedPath;

/// Replays a fixed list of bounces and records the depths it was asked at.
struct Scripted {
    bounces: Vec<Bounce>,
    depths: Vec<u32>,
}

impl RayTracer for Scripted {
    fn trace(&mut self, depth: u32) -> Bounce {
        let i = self.depths.len();
        self.depths.push(depth);
        self.bounces[i]
    }
}

/// A material that always scatters.
struct Mirror {
    traced: u32,
}

impl RayTracer for Mirror {
    fn trace(&mut self, _depth: u32) -> Bounce {
        self.traced += 1;
        Bounce::Scattered
    }
}

#[test]
fn escaped_ray_finishes_with_sky() {
    assert_eq!(advance(0, Bounce::Escaped), Step::Finish { end: PathEnd::Sky });
    assert_eq!(advance(MAX_DEPTH, Bounce::Escaped), Step::Finish { end: PathEnd::Sky });
}

#[test]
fn absorbed_ray_finishes_black() {
    assert_eq!(advance(7, Bounce::Absorbed), Step::Finish { end: PathEnd::Absorbed });
}

#[test]
fn scattered_ray_goes_one_deeper() {
    assert_eq!(advance(0, Bounce::Scattered), Step::Trace { depth: 1 });
    assert_eq!(advance(49, Bounce::Scattered), Step::Trace { depth: 50 });
}

#[test]
fn scatter_at_depth_bound_truncates() {
    assert_eq!(MAX_DEPTH, 50);
    assert_eq!(advance(50, Bounce::Scattered), Step::Finish { end: PathEnd::Truncated });
}

#[test]
fn always_scattering_path_is_cut_by_depth_bound() {
    let mut m = TracedPath::new(Mirror { traced: 0 });
    assert_eq!(trace_path(&mut m), (PathEnd::Truncated, 50));
    assert_eq!(m.tracer().traced, 51);
}

#[test]
fn missing_camera_ray_sees_sky() {
    let mut s = TracedPath::new(Scripted { bounces: vec![Bounce::Escaped], depths: Vec::new() });
    assert_eq!(trace_path(&mut s), (PathEnd::Sky, 0));
    assert_eq!(s.tracer().depths, vec![0]);
}

#[test]
fn path_absorbed_after_two_scatters() {
    let mut s = TracedPath::new(Scripted {
        bounces: vec![Bounce::Scattered, Bounce::Scattered, Bounce::Absorbed, Bounce::Escaped],
        depths: Vec::new(),
    });
    assert_eq!(trace_path(&mut s), (PathEnd::Absorbed, 2));
    assert_eq!(s.tracer().depths, vec![0, 1, 2]);
}

#[test]
fn path_escapes_after_one_scatter() {
    let mut s = TracedPath::new(Scripted { bounces: vec![Bounce::Scattered, Bounce::Escaped], depths: Vec::new() });
    assert_eq!(trace_path(&mut s), (PathEnd::Sky, 1));
    assert_eq!(s.tracer().depths, vec![0, 1]);
}

#[test]
fn second_path_on_same_tracer_starts_at_camera_depth() {
    let mut s = TracedPath::new(Scripted {
        bounces: vec![Bounce::Absorbed, Bounce::Scattered, Bounce::Escaped],
        depths: Vec::new(),
    });
    assert_eq!(trace_path(&mut s), (PathEnd::Absorbed, 0));
    assert_eq!(trace_path(&mut s), (PathEnd::Sky, 1));
    let inner = s.into_inner();
    assert_eq!(inner.depths, vec![0, 0, 1]);
}
