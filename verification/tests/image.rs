use discord2::image::{data_uri, Format, Image, UploadImage};
use discord2::resources::application::{ApplicationIcon, ApplicationId};
use discord2::teams::{TeamIcon, TeamId};
use discord2::wire::Primitive;

#[test]
fn icon_paths() {
    let icon = TeamIcon::new(TeamId::from(531992624043786253), "dd9b7dcfdf5351b9c3de0fe167bacbe1");
    assert_eq!(icon.bare_path(), "team-icons/531992624043786253/dd9b7dcfdf5351b9c3de0fe167bacbe1");
    assert_eq!(
        icon.path(Format::Png).unwrap(),
        "team-icons/531992624043786253/dd9b7dcfdf5351b9c3de0fe167bacbe1.png"
    );
    assert_eq!(
        icon.path(Format::Jpeg).unwrap(),
        "team-icons/531992624043786253/dd9b7dcfdf5351b9c3de0fe167bacbe1.jpg"
    );
    assert_eq!(
        icon.path(Format::WebP).unwrap(),
        "team-icons/531992624043786253/dd9b7dcfdf5351b9c3de0fe167bacbe1.webp"
    );
    assert_eq!(icon.path(Format::Gif), None);
    assert!(icon.supports(Format::Png) && icon.supports(Format::Jpeg) && icon.supports(Format::WebP));
    assert!(!icon.supports(Format::Gif));

    let icon = ApplicationIcon::new(ApplicationId::from(172150183260323840), "abc");
    assert_eq!(icon.bare_path(), "app-icons/172150183260323840/abc");
    assert_eq!(icon.path(Format::WebP).unwrap(), "app-icons/172150183260323840/abc.webp");
    assert_eq!(icon.path(Format::Gif), None);
    let icon = ApplicationIcon::new(ApplicationId::from(0), "");
    assert_eq!(icon.path(Format::Png).unwrap(), "app-icons/0/.png");
}

#[test]
fn extensions_and_media_types() {
    assert_eq!(Format::Png.extension(), "png");
    assert_eq!(Format::Jpeg.extension(), "jpg");
    assert_eq!(Format::WebP.extension(), "webp");
    assert_eq!(Format::Gif.extension(), "gif");
    assert_eq!(Format::Png.media_type(), "image/png");
    assert_eq!(Format::Jpeg.media_type(), "image/jpeg");
    assert_eq!(Format::WebP.media_type(), "image/webp");
    assert_eq!(Format::Gif.media_type(), "image/gif");
}

#[test]
fn upload_is_a_data_uri() {
    let image = UploadImage::new(Format::Png, b"hello".to_vec());
    assert!(image.can_encode());
    assert_eq!(image.to_data_uri(), "data:image/png;base64,aGVsbG8=");
    assert_eq!(image.serialize(), Primitive::Text("data:image/png;base64,aGVsbG8=".to_owned()));
    let image = UploadImage::new(Format::Jpeg, vec![0xff, 0xd8, 0xff, 0xe0]);
    assert_eq!(image.to_data_uri(), "data:image/jpeg;base64,/9j/4A==");
    let image = UploadImage::new(Format::Gif, Vec::new());
    assert_eq!(image.to_data_uri(), "data:image/gif;base64,");
    let image = UploadImage::new(Format::WebP, vec![0xfb, 0xef, 0xbe]);
    assert_eq!(image.to_data_uri(), "data:image/webp;base64,++++");
    assert_eq!(data_uri(Format::Gif, "R0lG"), "data:image/gif;base64,R0lG");
}
