use n64_gfx::system::{
    self, SystemAlloc, HIT_WRITEBACK_D, INDEX_INVALIDATE_I, INDEX_WRITEBACK_INVALIDATE_D,
};

#[test]
fn physical_addr_strips_segment() {
    assert_eq!(system::physical_addr(0xA020_1234), 0x0020_1234);
    assert_eq!(system::physical_addr(0x8000_0000), 0);
    assert_eq!(system::physical_addr(0x1FFF_FFFF), 0x1FFF_FFFF);
}

#[test]
fn virtual_mappings() {
    assert_eq!(system::virtual_cached_addr(0x0020_0000), 0x8020_0000);
    assert_eq!(system::virtual_uncached_addr(0x0020_0000), 0xA020_0000);
}

#[test]
fn cached_uncached_round_trip() {
    assert_eq!(system::uncached_addr(0x8020_0000), 0xA020_0000);
    assert_eq!(system::cached_addr(0xA020_0000), 0x8020_0000);
    assert_eq!(system::cached_addr(system::uncached_addr(0x8123_4560)), 0x8123_4560);
}

#[test]
fn arena_allocate_aligns_and_charges() {
    let mut arena = SystemAlloc::new(0x8000_0010, 0x0010_0000);
    assert_eq!(arena.free_bytes(), 0x0010_0000);
    let a = arena.allocate(100, 16).unwrap();
    assert_eq!(a % 16, 0);
    assert!(a >= 0x8000_0010);
    assert_eq!(arena.free_bytes(), 0x0010_0000 - 100);
    arena.deallocate(a, 100, 16);
    assert_eq!(arena.free_bytes(), 0x0010_0000);
}

#[test]
fn arena_refuses_oversized_request() {
    let mut arena = SystemAlloc::new(0x8000_0000, 0x1000);
    assert!(arena.allocate(0x2000, 16).is_none());
    assert_eq!(arena.free_bytes(), 0x1000);
    assert!(arena.allocate(0x1000, 16).is_some());
}

#[test]
fn arena_stacked_blocks_release_in_reverse() {
    let mut arena = SystemAlloc::new(0x8000_0000, 0x1_0000);
    let a = arena.allocate(0x100, 16).unwrap();
    let b = arena.allocate(0x40, 32).unwrap();
    assert!(b >= a + 0x100);
    assert_eq!(b % 32, 0);
    assert_eq!(arena.free_bytes(), 0x1_0000 - 0x140);
    arena.deallocate(b, 0x40, 32);
    arena.deallocate(a, 0x100, 16);
    assert_eq!(arena.free_bytes(), 0x1_0000);
}

#[test]
fn data_cache_plan_lists_lines() {
    let p = system::data_cache_hit_writeback(0x8000_0008, 40);
    assert_eq!(p.op, HIT_WRITEBACK_D);
    assert!(!p.flush_all);
    assert_eq!(p.lines, vec![0x8000_0000, 0x8000_0010, 0x8000_0020]);
}

#[test]
fn data_cache_plan_empty_when_aligned_empty() {
    let p = system::data_cache_hit_invalidate(0x8000_0000, 0);
    assert!(!p.flush_all);
    assert!(p.lines.is_empty());
}

#[test]
fn data_cache_plan_flushes_all_past_threshold() {
    let p = system::data_cache_index_writeback_invalidate(0x8000_0000, 8192);
    assert!(p.flush_all);
    assert!(p.lines.is_empty());
    let p = system::data_cache_hit_writeback_invalidate(0x8000_0000, 8191);
    assert!(!p.flush_all);
    assert_eq!(p.lines.len(), 512);
}

#[test]
fn whole_cache_plans() {
    let d = system::data_cache_writeback_invalidate_all();
    assert_eq!(d.op, INDEX_WRITEBACK_INVALIDATE_D);
    assert_eq!(d.lines.len(), 512);
    assert_eq!(d.lines[0], 0);
    assert_eq!(d.lines[511], 8176);
    let i = system::inst_cache_invalidate_all();
    assert_eq!(i.op, INDEX_INVALIDATE_I);
    assert_eq!(i.lines.len(), 512);
    assert_eq!(i.lines[511], 16352);
}

#[test]
fn inst_cache_plan_uses_wide_lines() {
    let p = system::inst_cache_hit_writeback(0x8000_1004, 64);
    assert!(!p.flush_all);
    assert_eq!(p.lines, vec![0x8000_1000, 0x8000_1020, 0x8000_1040]);
}
