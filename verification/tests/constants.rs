use reflink_copy::sys::unix::macos::CLONE_NOOWNERCOPY;
use reflink_copy::sys::windows_impl::{
    CLUSTER_4K, CLUSTER_64K, FILE_ATTRIBUTE_SPARSE_FILE, FILE_SUPPORTS_BLOCK_REFCOUNTING, FOUR_GIB,
};

#[test]
fn attribute_and_flag_bits_are_those_of_windows() {
    assert_eq!(
        FILE_ATTRIBUTE_SPARSE_FILE,
        windows::Win32::Storage::FileSystem::FILE_ATTRIBUTE_SPARSE_FILE.0
    );
    assert_eq!(
        FILE_SUPPORTS_BLOCK_REFCOUNTING,
        windows::Win32::System::SystemServices::FILE_SUPPORTS_BLOCK_REFCOUNTING
    );
}

#[test]
fn sizes_are_what_their_names_say() {
    assert_eq!(FOUR_GIB, 4 * 1024 * 1024 * 1024);
    assert_eq!(CLUSTER_4K, 4 * 1024);
    assert_eq!(CLUSTER_64K, 64 * 1024);
    assert_eq!(CLONE_NOOWNERCOPY, 0x0002);
}
