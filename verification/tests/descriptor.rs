use hati::descriptor::{DescriptorAllocator, NUM_CBV_SRV_UAV_DESCRIPTORS, NUM_SAMPLER_DESCRIPTORS};

fn ranges_overlap(a: (u32, u32), b: (u32, u32)) -> bool {
    a.0 < b.0 + b.1 && b.0 < a.0 + a.1
}

#[test]
fn allocations_follow_each_other() {
    let mut allocator = DescriptorAllocator::new(NUM_CBV_SRV_UAV_DESCRIPTORS, NUM_SAMPLER_DESCRIPTORS);
    let first = allocator.allocate(3, 1);
    let second = allocator.allocate(5, 0);
    let third = allocator.allocate(1, 2);
    assert_eq!(first, (0, 0));
    assert_eq!(second, (3, 1));
    assert_eq!(third, (8, 1));
    assert_eq!(allocator.resource_view_cursor(), 9);
    assert_eq!(allocator.sampler_cursor(), 3);
}

#[test]
fn allocated_ranges_never_overlap() {
    let mut allocator = DescriptorAllocator::new(64, 16);
    let sizes: [(u32, u32); 6] = [(3, 1), (0, 0), (7, 2), (1, 0), (0, 5), (20, 3)];
    let mut resource_views: Vec<(u32, u32)> = Vec::new();
    let mut samplers: Vec<(u32, u32)> = Vec::new();
    for (resource_view_count, sampler_count) in sizes {
        assert!(allocator.can_allocate(resource_view_count, sampler_count));
        let base = allocator.allocate(resource_view_count, sampler_count);
        resource_views.push((base.0, resource_view_count));
        samplers.push((base.1, sampler_count));
    }
    for i in 0..sizes.len() {
        assert!(resource_views[i].0 + resource_views[i].1 <= 64);
        assert!(samplers[i].0 + samplers[i].1 <= 16);
        for j in 0..i {
            assert!(!ranges_overlap(resource_views[i], resource_views[j]));
            assert!(!ranges_overlap(samplers[i], samplers[j]));
        }
    }
}

#[test]
fn default_capacities() {
    assert_eq!(NUM_CBV_SRV_UAV_DESCRIPTORS, 2048);
    assert_eq!(NUM_SAMPLER_DESCRIPTORS, 128);
    let allocator = DescriptorAllocator::new(NUM_CBV_SRV_UAV_DESCRIPTORS, NUM_SAMPLER_DESCRIPTORS);
    assert_eq!(allocator.resource_view_capacity(), 2048);
    assert_eq!(allocator.sampler_capacity(), 128);
    assert!(allocator.can_allocate(2048, 128));
    assert!(!allocator.can_allocate(2049, 0));
    assert!(!allocator.can_allocate(0, 129));
}

#[test]
fn allocation_may_fill_a_heap_but_not_exceed_it() {
    let mut allocator = DescriptorAllocator::new(8, 2);
    assert_eq!(allocator.allocate(5, 1), (0, 0));
    assert!(!allocator.can_allocate(4, 0));
    assert!(!allocator.can_allocate(0, 2));
    assert!(allocator.can_allocate(3, 1));
    assert_eq!(allocator.allocate(3, 1), (5, 1));
    assert_eq!(allocator.resource_view_cursor(), 8);
    assert_eq!(allocator.sampler_cursor(), 2);
    assert!(!allocator.can_allocate(1, 0));
    assert!(!allocator.can_allocate(0, 1));
    assert!(!allocator.can_allocate(u32::MAX, 0));
    assert!(!allocator.can_allocate(0, u32::MAX));
}

#[test]
fn empty_allocation_leaves_the_cursors() {
    let mut allocator = DescriptorAllocator::new(8, 2);
    assert!(allocator.can_allocate(0, 0));
    assert_eq!(allocator.allocate(0, 0), (0, 0));
    assert_eq!(allocator.resource_view_cursor(), 0);
    assert_eq!(allocator.sampler_cursor(), 0);
    assert_eq!(allocator.allocate(8, 2), (0, 0));
    assert!(allocator.can_allocate(0, 0));
    assert_eq!(allocator.allocate(0, 0), (8, 2));
    assert_eq!(allocator.resource_view_cursor(), 8);
    assert_eq!(allocator.sampler_cursor(), 2);
}

#[test]
fn empty_allocation_on_one_heap_only() {
    let mut allocator = DescriptorAllocator::new(8, 2);
    assert_eq!(allocator.allocate(4, 0), (0, 0));
    assert_eq!(allocator.sampler_cursor(), 0);
    assert_eq!(allocator.allocate(0, 1), (4, 0));
    assert_eq!(allocator.resource_view_cursor(), 4);
    assert_eq!(allocator.sampler_cursor(), 1);
}

#[test]
fn reset_hands_slots_out_again() {
    let mut allocator = DescriptorAllocator::new(16, 4);
    let pipeline = allocator.allocate(3, 0);
    let scene = allocator.allocate(4, 1);
    assert_eq!(pipeline, (0, 0));
    assert_eq!(scene, (3, 0));
    allocator.reset(3, 0);
    assert_eq!(allocator.resource_view_cursor(), 3);
    assert_eq!(allocator.sampler_cursor(), 0);
    assert_eq!(allocator.resource_view_capacity(), 16);
    assert_eq!(allocator.sampler_capacity(), 4);
    let reloaded = allocator.allocate(4, 1);
    assert_eq!(reloaded, scene);
}

#[test]
fn reset_past_the_heap_leaves_no_room() {
    let mut allocator = DescriptorAllocator::new(16, 4);
    allocator.reset(17, 0);
    assert!(!allocator.can_allocate(0, 0));
    allocator.reset(16, 4);
    assert!(allocator.can_allocate(0, 0));
    assert!(!allocator.can_allocate(1, 0));
}
