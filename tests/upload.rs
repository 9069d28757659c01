use neighborhood_cli::error::MainError;
use neighborhood_cli::upload::{
    file_name, FilePart, UploadImages, UploadImagesResponse, UploadVideo, UploadVideoResponse,
    UPLOAD_IMAGES_API, UPLOAD_VIDEO_API,
};

fn video_response(json: &str) -> UploadVideoResponse {
    let value: serde_json::Value = serde_json::from_str(json).unwrap();
    UploadVideoResponse {
        message: value.get("message").and_then(|m| m.as_str()).map(String::from),
        url: value.get("url").and_then(|u| u.as_str()).map(String::from),
    }
}

#[test]
fn video_response_with_url() {
    assert_eq!(video_response(r#"{"url":"https://x/y.mp4"}"#).into_url(), Ok("https://x/y.mp4".to_string()));
}

#[test]
fn video_response_rejected() {
    assert_eq!(
        video_response(r#"{"message":"too large"}"#).into_url(),
        Err(MainError::Server(Some("too large".to_string())))
    );
    assert_eq!(video_response("{}").into_url(), Err(MainError::Server(None)));
}

#[test]
fn images_response() {
    let ok = UploadImagesResponse { message: Some("done".to_string()), urls: Some(vec!["https://x/a.png".to_string()]) };
    assert_eq!(ok.into_urls(), Ok(vec!["https://x/a.png".to_string()]));
    let refused = UploadImagesResponse { message: Some("no".to_string()), urls: None };
    assert_eq!(refused.into_urls(), Err(MainError::Server(Some("no".to_string()))));
}

#[test]
fn unreadable_image_is_named() {
    let paths = vec!["a.png".to_string(), "dir/b.png".to_string(), "c.png".to_string()];
    let contents = vec![Ok(vec![1u8]), Err("permission denied".to_string()), Ok(vec![3u8])];
    let r = UploadImages::new(paths).configure("tok".to_string(), contents, '/');
    match r {
        Err(e) => assert_eq!(e, MainError::ReadFile("permission denied".to_string(), "dir/b.png".to_string())),
        Ok(_) => panic!("a form was made although a file could not be read"),
    }
}

#[test]
fn first_unreadable_image_is_named() {
    let paths = vec!["a.png".to_string(), "b.png".to_string()];
    let contents = vec![Err("gone".to_string()), Err("denied".to_string())];
    match UploadImages::new(paths).configure("tok".to_string(), contents, '/') {
        Err(e) => assert_eq!(e, MainError::ReadFile("gone".to_string(), "a.png".to_string())),
        Ok(_) => panic!("a form was made although no file could be read"),
    }
}

#[test]
fn image_form() {
    let paths = vec!["shots/a.png".to_string(), "b.unknownext".to_string()];
    let images = UploadImages::new(paths);
    assert_eq!(images.api(), UPLOAD_IMAGES_API);
    let form = images.configure("tok".to_string(), vec![Ok(vec![1u8, 2]), Ok(vec![])], '/').unwrap();
    assert_eq!(form.token, "tok");
    assert_eq!(form.field, "files");
    assert_eq!(form.files.len(), 2);
    assert_eq!(form.files[0].file_name, "a.png");
    assert_eq!(form.files[0].mime.as_deref(), Some("image/png"));
    assert_eq!(form.files[0].bytes, vec![1u8, 2]);
    assert_eq!(form.files[1].file_name, "b.unknownext");
    assert_eq!(form.files[1].mime, None);
}

#[test]
fn empty_image_batch() {
    let form = UploadImages::new(Vec::new()).configure("tok".to_string(), Vec::new(), '/').unwrap();
    assert!(form.files.is_empty());
}

#[test]
fn video_form() {
    let video = UploadVideo::new("clips/demo.mp4");
    assert_eq!(video.api(), UPLOAD_VIDEO_API);
    assert_eq!(video.path(), "clips/demo.mp4");
    let form = video.configure("tok".to_string(), Ok(vec![9u8]), '/').unwrap();
    assert_eq!(form.field, "file");
    assert_eq!(form.files.len(), 1);
    assert_eq!(form.files[0].file_name, "demo.mp4");
    assert_eq!(form.files[0].mime.as_deref(), Some("video/mp4"));
    let failed = UploadVideo::new("clips/demo.mp4").configure("tok".to_string(), Err("missing".to_string()), '/');
    assert_eq!(failed.unwrap_err(), MainError::ReadFile("missing".to_string(), "clips/demo.mp4".to_string()));
}

#[test]
fn file_names() {
    assert_eq!(file_name("a/b/c.txt", '/'), "c.txt");
    assert_eq!(file_name("c.txt", '/'), "c.txt");
    assert_eq!(file_name("dir/", '/'), "");
    assert_eq!(file_name("", '/'), "");
    assert_eq!(file_name("C:\\x\\y.png", '\\'), "y.png");
}

#[test]
fn part_typed_by_extension() {
    let part = FilePart::from_file("pics/photo.jpg", vec![7u8], '/');
    assert_eq!(part.file_name, "photo.jpg");
    assert_eq!(part.mime.as_deref(), Some("image/jpeg"));
    let plain = FilePart::new("pics/photo.jpg", vec![], None, '/');
    assert_eq!(plain.mime, None);
}
