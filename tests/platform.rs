use llmalloc::{
    select_node, LLConfiguration, LLPlatform, MapOutcome, MemoryRegion, NumaNodeIndex,
    RequestError, CLUSTER_DISTANCE, HUGE_PAGE_SIZE, LARGE_PAGE_SIZE, MAP_ANONYMOUS, MAP_FAILED,
    MAP_HUGETLB, MAP_HUGE_1GB, MAP_HUGE_SHIFT, PROT_READ, PROT_WRITE,
};

#[test]
fn page_sizes() {
    let config = LLConfiguration::default();
    assert_eq!(config.large_page_size(), 2 * 1024 * 1024);
    assert_eq!(config.huge_page_size(), 1024 * 1024 * 1024);
    assert!(LARGE_PAGE_SIZE.is_power_of_two());
    assert!(HUGE_PAGE_SIZE.is_power_of_two());
    assert_eq!(HUGE_PAGE_SIZE % LARGE_PAGE_SIZE, 0);
}

#[test]
fn clustering_picks_first_close_node() {
    // distance(0, 2) = 11, distance(1, 2) = 21: node 2 clusters onto node 0.
    let node = select_node(NumaNodeIndex::new(2), &vec![11, 21]);
    assert_eq!(node.value(), 0);
}

#[test]
fn clustering_skips_remote_nodes() {
    let node = select_node(NumaNodeIndex::new(3), &vec![20, 11, 10]);
    assert_eq!(node.value(), 1);
}

#[test]
fn clustering_is_deterministic() {
    let table = vec![21, 11, 11];
    let first = select_node(NumaNodeIndex::new(3), &table);
    let second = select_node(NumaNodeIndex::new(3), &table);
    assert_eq!(first, second);
    assert_eq!(first.value(), 1);
}

#[test]
fn clustering_single_node_keeps_it() {
    let node = select_node(NumaNodeIndex::new(0), &vec![]);
    assert_eq!(node.value(), 0);
}

#[test]
fn clustering_without_close_node_keeps_detected() {
    let node = select_node(NumaNodeIndex::new(2), &vec![21, 20]);
    assert_eq!(node.value(), 2);
    assert_eq!(CLUSTER_DISTANCE, 11);
    let edge = select_node(NumaNodeIndex::new(2), &vec![12, 11]);
    assert_eq!(edge.value(), 1);
}

#[test]
fn request_checks() {
    let platform = LLPlatform::new();
    assert_eq!(platform.check_request(HUGE_PAGE_SIZE, 4096), Ok(()));
    assert_eq!(platform.check_request(3 * HUGE_PAGE_SIZE, HUGE_PAGE_SIZE), Ok(()));
    assert_eq!(platform.check_request(0, 8), Err(RequestError::Size));
    assert_eq!(platform.check_request(LARGE_PAGE_SIZE, 8), Err(RequestError::Size));
    assert_eq!(
        platform.check_request(HUGE_PAGE_SIZE, 2 * HUGE_PAGE_SIZE),
        Err(RequestError::Alignment)
    );
}

#[test]
fn map_request_arguments() {
    let platform = LLPlatform::new();
    let request = platform.map_request(2 * HUGE_PAGE_SIZE, 64);
    assert_eq!(request.length, 2 * HUGE_PAGE_SIZE);
    assert_eq!(request.prot, 3);
    assert_eq!(request.prot, PROT_READ | PROT_WRITE);
    assert_eq!(request.flags, 0x20 | 0x40000 | (30 << 26));
    assert_eq!(request.flags, MAP_ANONYMOUS | MAP_HUGETLB | MAP_HUGE_1GB);
    assert_eq!(MAP_HUGE_1GB, 30 << MAP_HUGE_SHIFT);
    assert_eq!(request.fd, -1);
    assert_eq!(request.offset, 0);
}

#[test]
fn mapping_outcomes() {
    let platform = LLPlatform::new();
    let size = 2 * HUGE_PAGE_SIZE;
    assert_eq!(platform.accept_mapping(size, MAP_FAILED), MapOutcome::Failed);
    assert_eq!(
        platform.accept_mapping(size, HUGE_PAGE_SIZE + 4096),
        MapOutcome::Misaligned(HUGE_PAGE_SIZE + 4096)
    );
    match platform.accept_mapping(size, 5 * HUGE_PAGE_SIZE) {
        MapOutcome::Mapped(region) => {
            assert_eq!(region.address(), 5 * HUGE_PAGE_SIZE);
            assert_eq!(region.length(), size);
            assert_eq!(region.address() % HUGE_PAGE_SIZE, 0);
        }
        other => panic!("unexpected outcome {:?}", other),
    }
}

#[test]
fn region_release_round_trip() {
    let platform = LLPlatform::new();
    let size = HUGE_PAGE_SIZE;
    let region = match platform.accept_mapping(size, 7 * HUGE_PAGE_SIZE) {
        MapOutcome::Mapped(region) => region,
        other => panic!("unexpected outcome {:?}", other),
    };
    let rebuilt = MemoryRegion::from_parts(region.address(), region.length());
    assert_eq!(rebuilt, Some(region));
    assert_eq!(platform.unmap_status(0), Ok(()));
    assert_eq!(platform.unmap_status(-1), Err(-1));
}

#[test]
fn foreign_regions_refused() {
    assert_eq!(MemoryRegion::from_parts(4096, HUGE_PAGE_SIZE), None);
    assert_eq!(MemoryRegion::from_parts(HUGE_PAGE_SIZE, 0), None);
    assert_eq!(MemoryRegion::from_parts(HUGE_PAGE_SIZE, LARGE_PAGE_SIZE), None);
}
