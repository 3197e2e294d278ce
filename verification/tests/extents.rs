use reflink_copy::sys::windows_impl::{
    can_round, integrity_to_set, is_block_cloning_supported, is_sparse, max_copy_len, next_extent,
    round_up, total_copy_len, CLUSTER_4K, CLUSTER_64K, DUPLICATE_EXTENTS_DATA,
    FILE_ATTRIBUTE_SPARSE_FILE, FILE_SUPPORTS_BLOCK_REFCOUNTING, FOUR_GIB,
    FSCTL_GET_INTEGRITY_INFORMATION_BUFFER, FSCTL_SET_INTEGRITY_INFORMATION_BUFFER,
};

#[test]
fn round_up_of_multiples_is_the_number() {
    assert_eq!(round_up(0, 4096), 0);
    assert_eq!(round_up(4096, 4096), 4096);
    assert_eq!(round_up(8192, 4096), 8192);
    assert_eq!(round_up(65536, 65536), 65536);
    assert_eq!(round_up(65536, 4096), 65536);
}

#[test]
fn round_up_goes_to_the_next_multiple() {
    assert_eq!(round_up(1, 4096), 4096);
    assert_eq!(round_up(4095, 4096), 4096);
    assert_eq!(round_up(4097, 4096), 8192);
    assert_eq!(round_up(1, 65536), 65536);
    assert_eq!(round_up(65537, 65536), 131072);
    assert_eq!(round_up(4097, 65536), 65536);
    assert_eq!(round_up(5, 2), 6);
    assert_eq!(round_up(5, 8), 8);
}

#[test]
fn round_up_to_one_changes_nothing() {
    assert_eq!(round_up(0, 1), 0);
    assert_eq!(round_up(7, 1), 7);
    assert_eq!(round_up(i64::MAX, 1), i64::MAX);
    assert_eq!(round_up(-7, 1), -7);
}

#[test]
fn round_up_of_negative_numbers_goes_towards_zero() {
    assert_eq!(round_up(-1, 4096), 0);
    assert_eq!(round_up(-4095, 4096), 0);
    assert_eq!(round_up(-4096, 4096), -4096);
    assert_eq!(round_up(-4097, 4096), -4096);
    assert_eq!(round_up(i64::MIN, 4096), i64::MIN);
    assert_eq!(round_up(i64::MIN + 1, 4096), i64::MIN + 4096);
}

#[test]
fn round_up_at_the_upper_end() {
    assert_eq!(round_up(i64::MAX - 4095, 4096), i64::MAX - 4095);
    assert_eq!(round_up(i64::MAX - 65535, 65536), i64::MAX - 65535);
    assert_eq!(round_up(i64::MAX - 65535 - 1, 65536), i64::MAX - 65535);
    let top = 1i64 << 62;
    assert_eq!(round_up(top, top), top);
    assert_eq!(round_up(1, top), top);
}

#[test]
fn total_copy_len_rounds_to_whole_clusters() {
    assert_eq!(total_copy_len(0, CLUSTER_4K), 0);
    assert_eq!(total_copy_len(1, CLUSTER_4K), 4096);
    assert_eq!(total_copy_len(4096, CLUSTER_4K), 4096);
    assert_eq!(total_copy_len(4097, CLUSTER_4K), 8192);
    assert_eq!(total_copy_len(4097, CLUSTER_64K), 65536);
    assert_eq!(total_copy_len(10 * FOUR_GIB + 1, CLUSTER_64K), 10 * FOUR_GIB + 65536);
}

#[test]
fn total_copy_len_without_cluster_size_is_the_size() {
    assert_eq!(total_copy_len(0, 0), 0);
    assert_eq!(total_copy_len(1, 0), 1);
    assert_eq!(total_copy_len(4097, 0), 4097);
    assert_eq!(total_copy_len(i64::MAX, 0), i64::MAX);
}

#[test]
fn max_copy_len_stays_one_cluster_below_four_gib() {
    assert_eq!(max_copy_len(8192, CLUSTER_4K), 4_294_963_200);
    assert_eq!(max_copy_len(8192, CLUSTER_64K), 4_294_901_760);
    assert_eq!(max_copy_len(0, CLUSTER_4K), FOUR_GIB - 4096);
    assert_eq!(max_copy_len(100 * FOUR_GIB, CLUSTER_64K), FOUR_GIB - 65536);
}

#[test]
fn max_copy_len_is_rounded_down_to_a_cluster_multiple() {
    // 4 GiB - 3000 = 4_294_964_296 = 1_431_654 * 3000 + 2296
    assert_eq!(max_copy_len(6000, 3000), 4_294_962_000);
    assert_eq!(max_copy_len(6000, 3000) % 3000, 0);
    assert_eq!(max_copy_len(1, 1), FOUR_GIB - 1);
    assert_eq!(max_copy_len(1, 1 << 31), 1 << 31);
}

#[test]
fn max_copy_len_without_cluster_size_is_everything() {
    assert_eq!(max_copy_len(0, 0), 0);
    assert_eq!(max_copy_len(4097, 0), 4097);
    assert_eq!(max_copy_len(10 * FOUR_GIB, 0), 10 * FOUR_GIB);
}

#[test]
fn next_extent_asks_for_what_is_left() {
    assert_eq!(
        next_extent(0, 8192, FOUR_GIB - 4096),
        DUPLICATE_EXTENTS_DATA { SourceFileOffset: 0, TargetFileOffset: 0, ByteCount: 8192 }
    );
    assert_eq!(
        next_extent(4096, 8192, FOUR_GIB - 4096),
        DUPLICATE_EXTENTS_DATA { SourceFileOffset: 4096, TargetFileOffset: 4096, ByteCount: 4096 }
    );
    assert_eq!(
        next_extent(8192, 8192, FOUR_GIB - 4096),
        DUPLICATE_EXTENTS_DATA { SourceFileOffset: 8192, TargetFileOffset: 8192, ByteCount: 0 }
    );
}

#[test]
fn next_extent_asks_for_no_more_than_the_most() {
    let max = FOUR_GIB - 65536;
    let total = 10 * FOUR_GIB;
    assert_eq!(
        next_extent(0, total, max),
        DUPLICATE_EXTENTS_DATA { SourceFileOffset: 0, TargetFileOffset: 0, ByteCount: max }
    );
    assert_eq!(
        next_extent(max, total, max),
        DUPLICATE_EXTENTS_DATA { SourceFileOffset: max, TargetFileOffset: max, ByteCount: max }
    );
    assert_eq!(
        next_extent(total - 65536, total, max),
        DUPLICATE_EXTENTS_DATA {
            SourceFileOffset: total - 65536,
            TargetFileOffset: total - 65536,
            ByteCount: 65536
        }
    );
    assert_eq!(
        next_extent(total - max, total, max),
        DUPLICATE_EXTENTS_DATA {
            SourceFileOffset: total - max,
            TargetFileOffset: total - max,
            ByteCount: max
        }
    );
}

#[test]
fn requests_cover_a_large_file_without_gap() {
    let size = 10 * FOUR_GIB + 1;
    let total = total_copy_len(size, CLUSTER_64K);
    let max = max_copy_len(total, CLUSTER_64K);
    let mut copied = 0;
    let mut requests = 0;
    while copied < total {
        let extent = next_extent(copied, total, max);
        assert_eq!(extent.SourceFileOffset, copied);
        assert_eq!(extent.TargetFileOffset, copied);
        assert!(0 < extent.ByteCount && extent.ByteCount < FOUR_GIB);
        assert_eq!(extent.SourceFileOffset % CLUSTER_64K, 0);
        assert_eq!(extent.ByteCount % CLUSTER_64K, 0);
        copied += extent.ByteCount;
        requests += 1;
    }
    assert_eq!(copied, total);
    assert_eq!(requests, 11);
    assert!(size <= total && total < size + CLUSTER_64K);
}

#[test]
fn sparse_files_are_told_by_their_attribute() {
    assert_eq!(FILE_ATTRIBUTE_SPARSE_FILE, 512);
    assert!(is_sparse(0x200));
    assert!(is_sparse(0x220));
    assert!(is_sparse(u32::MAX));
    assert!(!is_sparse(0));
    assert!(!is_sparse(0x20));
    assert!(!is_sparse(0x400));
    assert!(!is_sparse(!0x200));
}

#[test]
fn block_cloning_is_told_by_the_volume_flag() {
    assert_eq!(FILE_SUPPORTS_BLOCK_REFCOUNTING, 134_217_728);
    assert!(is_block_cloning_supported(0x0800_0000));
    assert!(is_block_cloning_supported(0x0800_0003));
    assert!(!is_block_cloning_supported(0));
    assert!(!is_block_cloning_supported(0x0400_0000));
    assert!(!is_block_cloning_supported(!0x0800_0000));
}

#[test]
fn sizes_that_cannot_be_rounded_are_told() {
    assert!(can_round(0, 4096));
    assert!(can_round(i64::MAX - 4095, 4096));
    assert!(!can_round(i64::MAX - 4094, 4096));
    assert!(can_round(i64::MAX - 65535, 65536));
    assert!(!can_round(i64::MAX - 65534, 65536));
    assert!(!can_round(i64::MAX, 4096));
    // a cluster size that is not rounded to sets no limit
    assert!(can_round(i64::MAX, 0));
    assert!(can_round(i64::MAX, 512));
}

#[test]
fn integrity_information_is_handed_on_field_by_field() {
    let info = FSCTL_GET_INTEGRITY_INFORMATION_BUFFER {
        ChecksumAlgorithm: 2,
        Reserved: 7,
        Flags: 0x11,
        ChecksumChunkSizeInBytes: 16384,
        ClusterSizeInBytes: 65536,
    };
    assert_eq!(
        integrity_to_set(&info),
        FSCTL_SET_INTEGRITY_INFORMATION_BUFFER { ChecksumAlgorithm: 2, Reserved: 7, Flags: 0x11 }
    );
}
