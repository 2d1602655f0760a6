use fdown::feedly::{FeedlyInternal, HttpMockableClient, TransportError};
use fdown::image_url::{checked_resize, find_size_suffix, largest_variant};

struct NoClient;

impl HttpMockableClient for NoClient {
    fn get(&self, _url: &str, _auth_header: Option<String>) -> Result<Vec<u8>, TransportError> {
        Err(TransportError { message: "unused".to_string() })
    }

    fn post(
        &self,
        _url: &str,
        _auth_header: Option<String>,
        _body: &[u8],
    ) -> Result<Vec<u8>, TransportError> {
        Err(TransportError { message: "unused".to_string() })
    }
}

fn filter(url: &str) -> String {
    FeedlyInternal::<NoClient>::tumblr_filter(url)
}

#[test]
fn tumblr_filter_rewrites_the_size() {
    assert_eq!(
        "http://40.media.tumblr.com/abc/tumblr_xyz_1280.jpg",
        filter("http://40.media.tumblr.com/abc/tumblr_xyz_500.jpg")
    );
    assert_eq!("a_1280.png", filter("a_75.png"));
    assert_eq!("x_y_1280.gif", filter("x_y_1.gif"));
    assert_eq!("http://h/p_1280.JPG2", filter("http://h/p_400.JPG2"));
}

#[test]
fn tumblr_filter_leaves_other_urls() {
    for url in [
        "",
        "http://host/image.jpg",
        "http://host/image_large.jpg",
        "http://host/image_500",
        "http://host/image_500.",
        "http://host/image_500.jpg?x=1",
        "http://host/image500.jpg",
        "http://host/image_.jpg",
        "http://host/image_500.jp-g",
        "_.a",
        "500.jpg",
        "http://host/image_500.jpg\n",
    ] {
        assert_eq!(url, filter(url));
    }
}

#[test]
fn tumblr_filter_is_idempotent() {
    for url in [
        "http://40.media.tumblr.com/abc/tumblr_xyz_500.jpg",
        "a_1.b",
        "a_1280.b",
        "http://host/image.jpg",
        "a_12_34.png",
        "",
    ] {
        let once = filter(url);
        assert_eq!(once, filter(&once));
    }
    assert_eq!("a_12_1280.png", filter("a_12_34.png"));
}

#[test]
fn largest_variant_is_the_filter() {
    assert_eq!("a_1280.png", largest_variant("a_75.png"));
    assert_eq!("a.png", largest_variant("a.png"));
}

#[test]
fn find_size_suffix_gives_the_places() {
    let chars: Vec<char> = "ab_12.jpg".chars().collect();
    assert_eq!(Some((2, 5)), find_size_suffix(&chars));
    let chars: Vec<char> = "ab12.jpg".chars().collect();
    assert_eq!(None, find_size_suffix(&chars));
    let chars: Vec<char> = "_1.a".chars().collect();
    assert_eq!(Some((0, 2)), find_size_suffix(&chars));
}

#[test]
fn checked_resize_keeps_only_a_resize() {
    assert_eq!("a_1280.png", checked_resize("a_75.png", Some("a_1280.png".to_string())));
    assert_eq!("a_75.png", checked_resize("a_75.png", Some("a_640.png".to_string())));
    assert_eq!("a_75.png", checked_resize("a_75.png", Some("b_1280.png".to_string())));
    assert_eq!("a_75.png", checked_resize("a_75.png", Some("a_1280.jpg".to_string())));
    assert_eq!("a_75.png", checked_resize("a_75.png", None));
    assert_eq!("a.png", checked_resize("a.png", Some("a_1280.png".to_string())));
}
