use n64_gfx::gfx::{RGBA5551, RGBA8888, Surface};
use n64_gfx::system::SystemAlloc;

const BASE: u32 = 0x8000_0000;
const CAPACITY: u32 = 0x0100_0000;

#[test]
fn framebuffer_dimensions_and_alignment() {
    let mut arena = SystemAlloc::new(BASE, CAPACITY);
    let fb = Surface::<RGBA5551>::framebuffer(&mut arena, 320, 240);
    assert_eq!(fb.width(), 320);
    assert_eq!(fb.height(), 240);
    assert_eq!(fb.len(), 76800);
    assert!(!fb.is_empty());
    assert_eq!(fb.as_slice().len(), 76800);
    assert_eq!(fb.as_ptr() % 0x0010_0000, 0);
    fb.destroy(&mut arena);
}

#[test]
fn framebuffer_size_charged_to_arena() {
    let mut arena = SystemAlloc::new(BASE, CAPACITY);
    let before = arena.free_bytes();
    let fb = Surface::<RGBA5551>::framebuffer(&mut arena, 320, 240);
    assert_eq!(arena.free_bytes(), before - 320 * 240 * 2);
    fb.destroy(&mut arena);
}

#[test]
fn general_surface_alignment() {
    let mut arena = SystemAlloc::new(BASE, CAPACITY);
    let mut s = Surface::<RGBA8888>::new(&mut arena, 8, 8);
    assert_eq!(s.len(), 64);
    assert_eq!(s.as_ptr() % 16, 0);
    assert_eq!(s.as_mut_ptr(), s.as_ptr());
    s.destroy(&mut arena);
}

#[test]
fn surface_address_is_uncached_window() {
    let mut arena = SystemAlloc::new(BASE, CAPACITY);
    let s = Surface::<RGBA5551>::new(&mut arena, 4, 4);
    assert!(s.as_ptr() >= 0xA000_0000);
    s.destroy(&mut arena);
}

#[test]
fn empty_surface() {
    let mut arena = SystemAlloc::new(BASE, CAPACITY);
    let s = Surface::<RGBA5551>::new(&mut arena, 0, 7);
    assert!(s.is_empty());
    assert_eq!(s.len(), 0);
    s.destroy(&mut arena);
}

#[test]
fn draw_point_at_origin() {
    let mut arena = SystemAlloc::new(BASE, CAPACITY);
    let mut s = Surface::<RGBA5551>::new(&mut arena, 16, 16);
    let color = RGBA5551::red();
    s.draw_points(&vec![(0, 0, color)]);
    assert_eq!(s.as_slice()[0], color);
    s.destroy(&mut arena);
}

#[test]
fn draw_point_linear_offset() {
    let mut arena = SystemAlloc::new(BASE, CAPACITY);
    let mut s = Surface::<RGBA5551>::new(&mut arena, 16, 16);
    let color = RGBA5551::cyan();
    s.draw_points(&vec![(5, 3, color)]);
    assert_eq!(s.as_slice()[5 + 3 * 16], color);
    s.destroy(&mut arena);
}

#[test]
fn draw_point_overwrites() {
    let mut arena = SystemAlloc::new(BASE, CAPACITY);
    let mut s = Surface::<RGBA5551>::new(&mut arena, 8, 8);
    s.draw_points(&vec![(2, 2, RGBA5551::red()), (2, 2, RGBA5551::blue())]);
    assert_eq!(s.as_slice()[2 + 2 * 8], RGBA5551::blue());
    s.destroy(&mut arena);
}

#[test]
fn draw_point_on_boundary_is_rejected() {
    // The boundary is exclusive here: a point at `(width, height)` is
    // dropped, so no write can land past the logical buffer edge.
    let mut arena = SystemAlloc::new(BASE, CAPACITY);
    let mut s = Surface::<RGBA5551>::new(&mut arena, 8, 8);
    let before: Vec<RGBA5551> = s.as_slice().to_vec();
    s.draw_points(&vec![(8, 8, RGBA5551::white())]);
    assert_eq!(s.as_slice(), &before[..]);
    s.destroy(&mut arena);
}

#[test]
fn draw_point_out_of_range_is_dropped() {
    let mut arena = SystemAlloc::new(BASE, CAPACITY);
    let mut s = Surface::<RGBA5551>::new(&mut arena, 8, 8);
    let before: Vec<RGBA5551> = s.as_slice().to_vec();
    s.draw_points(&vec![
        (9, 0, RGBA5551::white()),
        (0, 9, RGBA5551::white()),
        (-1, 0, RGBA5551::white()),
        (0, -1, RGBA5551::white()),
    ]);
    assert_eq!(s.as_slice(), &before[..]);
    s.destroy(&mut arena);
}

#[test]
fn draw_mixed_batch() {
    let mut arena = SystemAlloc::new(BASE, CAPACITY);
    let mut s = Surface::<RGBA8888>::new(&mut arena, 4, 4);
    s.draw_points(&vec![
        (0, 0, RGBA8888::red()),
        (3, 3, RGBA8888::green()),
        (4, 0, RGBA8888::white()),
        (1, 2, RGBA8888::blue()),
    ]);
    assert_eq!(s.as_slice()[0], RGBA8888::red());
    assert_eq!(s.as_slice()[3 + 3 * 4], RGBA8888::green());
    assert_eq!(s.as_slice()[1 + 2 * 4], RGBA8888::blue());
    s.destroy(&mut arena);
}

#[test]
fn as_mut_slice_writes_are_visible() {
    let mut arena = SystemAlloc::new(BASE, CAPACITY);
    let mut s = Surface::<RGBA5551>::new(&mut arena, 4, 4);
    s.as_mut_slice()[7] = RGBA5551::magenta();
    assert_eq!(s.as_slice()[7], RGBA5551::magenta());
    s.destroy(&mut arena);
}

#[test]
fn create_destroy_cycles_do_not_leak() {
    let mut arena = SystemAlloc::new(BASE, CAPACITY);
    let free0 = arena.free_bytes();
    for _ in 0..10 {
        let fb = Surface::<RGBA5551>::framebuffer(&mut arena, 320, 240);
        fb.destroy(&mut arena);
        assert_eq!(arena.free_bytes(), free0);
    }
    let s = Surface::<RGBA8888>::new(&mut arena, 100, 100);
    let inner = arena.free_bytes();
    for _ in 0..10 {
        let t = Surface::<RGBA8888>::new(&mut arena, 64, 64);
        t.destroy(&mut arena);
        assert_eq!(arena.free_bytes(), inner);
    }
    s.destroy(&mut arena);
    assert_eq!(arena.free_bytes(), free0);
}
