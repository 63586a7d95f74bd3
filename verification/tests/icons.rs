use ghostlayer::icons::{check_master_size, icon_file_name};

#[test]
fn master_image_must_be_large_enough() {
    assert!(check_master_size(1024, 1024).is_ok());
    assert!(check_master_size(128, 128).is_ok());
    assert_eq!(
        check_master_size(100, 300).err().unwrap(),
        "Input image is too small (100x300). Use at least 128×128 (1024×1024 recommended)."
    );
    assert!(check_master_size(300, 127).is_err());
}

#[test]
fn icon_files_are_named_by_size() {
    assert_eq!(icon_file_name("icon", 16), "icon16.png");
    assert_eq!(icon_file_name("logo-", 128), "logo-128.png");
    assert_eq!(icon_file_name("", 0), "0.png");
}
