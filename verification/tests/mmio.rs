use unicornafl::mmio::MmioCallbackScope;

fn scope_of(regions: Vec<(u64, usize)>) -> MmioCallbackScope<&'static str> {
    MmioCallbackScope { regions, read_callback: Some("read"), write_callback: None }
}

#[test]
fn a_new_scope_has_regions_and_an_empty_one_has_none() {
    assert!(scope_of(vec![(0x1000, 0x1000)]).has_regions());
    assert!(!scope_of(vec![]).has_regions());
}

#[test]
fn unmap_in_the_middle_leaves_two_regions() {
    let mut scope = scope_of(vec![(0x1000, 0x2000)]);
    scope.unmap(0x1800, 0x800);
    assert_eq!(scope.regions, vec![(0x1000, 0x800), (0x2001, 0xfff)]);
    assert_eq!(scope.read_callback, Some("read"));
    assert_eq!(scope.write_callback, None);
}

#[test]
fn unmap_in_the_middle_skips_the_byte_at_the_end_of_the_range() {
    let mut scope = scope_of(vec![(0x4000, 0x3000)]);
    scope.unmap(0x5000, 0x1000);
    // the second region starts one byte after the end of the range
    assert_eq!(scope.regions, vec![(0x4000, 0x1000), (0x6001, 0xfff)]);
}

#[test]
fn unmap_up_to_the_last_byte_but_one_leaves_an_empty_second_region() {
    let mut scope = scope_of(vec![(0x1000, 0x1000)]);
    scope.unmap(0x1800, 0x7ff);
    assert_eq!(scope.regions, vec![(0x1000, 0x800), (0x2000, 0)]);
}

#[test]
fn unmap_over_the_end_keeps_the_start() {
    let mut scope = scope_of(vec![(0x1000, 0x2000)]);
    scope.unmap(0x2000, 0x1000);
    assert_eq!(scope.regions, vec![(0x1000, 0x1000)]);
    let mut scope = scope_of(vec![(0x1000, 0x2000)]);
    scope.unmap(0x2000, 0x5000);
    assert_eq!(scope.regions, vec![(0x1000, 0x1000)]);
}

#[test]
fn unmap_over_the_start_keeps_the_end() {
    let mut scope = scope_of(vec![(0x1000, 0x2000)]);
    scope.unmap(0x1000, 0x1000);
    assert_eq!(scope.regions, vec![(0x2000, 0x1000)]);
    let mut scope = scope_of(vec![(0x1000, 0x2000)]);
    scope.unmap(0, 0x2000);
    assert_eq!(scope.regions, vec![(0x2000, 0x1000)]);
}

#[test]
fn unmap_of_the_whole_region_leaves_nothing() {
    let mut scope = scope_of(vec![(0x1000, 0x2000)]);
    scope.unmap(0x1000, 0x2000);
    assert_eq!(scope.regions, vec![]);
    assert!(!scope.has_regions());
    let mut scope = scope_of(vec![(0x1000, 0x2000)]);
    scope.unmap(0, 0x10000);
    assert_eq!(scope.regions, vec![]);
}

#[test]
fn unmap_below_the_region_keeps_it() {
    let mut scope = scope_of(vec![(0x3000, 0x1000)]);
    scope.unmap(0x1000, 0x1000);
    assert_eq!(scope.regions, vec![(0x3000, 0x1000)]);
    scope.unmap(0x2000, 0x1000);
    assert_eq!(scope.regions, vec![(0x3000, 0x1000)]);
}

#[test]
fn unmap_above_the_region_drops_it() {
    let mut scope = scope_of(vec![(0x1000, 0x1000)]);
    scope.unmap(0x2000, 0x1000);
    assert_eq!(scope.regions, vec![]);
    let mut scope = scope_of(vec![(0x1000, 0x1000)]);
    scope.unmap(0x8000, 0x1000);
    assert_eq!(scope.regions, vec![]);
}

#[test]
fn unmap_of_nothing_at_the_start_keeps_the_region() {
    let mut scope = scope_of(vec![(0x1000, 0x1000)]);
    scope.unmap(0x1000, 0);
    assert_eq!(scope.regions, vec![(0x1000, 0x1000)]);
}

#[test]
fn unmap_goes_through_every_region_in_order() {
    let mut scope = scope_of(vec![(0x1000, 0x1000), (0x3000, 0x3000), (0x8000, 0x1000)]);
    scope.unmap(0x4000, 0x1000);
    // the first lies below the range and is dropped, the second is split,
    // the third lies above the range and stays
    assert_eq!(scope.regions, vec![(0x3000, 0x1000), (0x5001, 0xfff), (0x8000, 0x1000)]);
}

#[test]
fn unmap_twice_narrows_twice() {
    let mut scope = scope_of(vec![(0x1000, 0x4000)]);
    scope.unmap(0x2000, 0x1000);
    assert_eq!(scope.regions, vec![(0x1000, 0x1000), (0x3001, 0x1fff)]);
    scope.unmap(0x4000, 0x1000);
    assert_eq!(scope.regions, vec![(0x3001, 0xfff)]);
}
