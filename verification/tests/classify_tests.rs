use oxideo_organizer::classify::{classify, Classification};

#[test]
fn classifies_common_image_extensions_as_media() {
    assert_eq!(classify("a.jpg"), Classification::Media);
    assert_eq!(classify("photo.jpeg"), Classification::Media);
    assert_eq!(classify("c.png"), Classification::Media);
    assert_eq!(classify("anim.gif"), Classification::Media);
    assert_eq!(classify("scan.bmp"), Classification::Media);
    assert_eq!(classify("big.tiff"), Classification::Media);
    assert_eq!(classify("fav.ico"), Classification::Media);
    assert_eq!(classify("shot.heic"), Classification::Media);
    assert_eq!(classify("pic.webp"), Classification::Media);
    assert_eq!(classify("logo.svg"), Classification::Media);
    assert_eq!(classify("dump.raw"), Classification::Media);
}

#[test]
fn classifies_common_video_extensions_as_media() {
    assert_eq!(classify("d.mp4"), Classification::Media);
    assert_eq!(classify("clip.mov"), Classification::Media);
    assert_eq!(classify("old.avi"), Classification::Media);
    assert_eq!(classify("phone.3gp"), Classification::Media);
    assert_eq!(classify("film.mkv"), Classification::Media);
    assert_eq!(classify("stream.flv"), Classification::Media);
    assert_eq!(classify("win.wmv"), Classification::Media);
    assert_eq!(classify("disc.mpeg"), Classification::Media);
    assert_eq!(classify("web.webm"), Classification::Media);
}

#[test]
fn extension_comparison_is_case_insensitive() {
    assert_eq!(classify("a.JPG"), Classification::Media);
    assert_eq!(classify("b.Jpeg"), Classification::Media);
    assert_eq!(classify("c.Mp4"), Classification::Media);
    assert_eq!(classify("d.WEBM"), Classification::Media);
}

#[test]
fn classifies_non_media_extensions_as_other() {
    assert_eq!(classify("b.txt"), Classification::Other);
    assert_eq!(classify("doc.pdf"), Classification::Other);
    assert_eq!(classify("archive.tar.gz"), Classification::Other);
    assert_eq!(classify("prog.rs"), Classification::Other);
}

#[test]
fn path_without_extension_is_other() {
    assert_eq!(classify("Makefile"), Classification::Other);
    assert_eq!(classify("sub/readme"), Classification::Other);
    assert_eq!(classify(""), Classification::Other);
}

#[test]
fn hidden_file_without_other_dot_is_other() {
    assert_eq!(classify(".gitignore"), Classification::Other);
    assert_eq!(classify("sub/.config"), Classification::Other);
}

#[test]
fn trailing_dot_is_other() {
    assert_eq!(classify("name."), Classification::Other);
}

#[test]
fn dot_in_directory_name_is_not_an_extension() {
    assert_eq!(classify("dir.d/file"), Classification::Other);
    assert_eq!(classify("photos.old/pic"), Classification::Other);
}

#[test]
fn extension_found_in_nested_path() {
    assert_eq!(classify("a/b/c/d.png"), Classification::Media);
    assert_eq!(classify("/abs/path/e.mov"), Classification::Media);
}
