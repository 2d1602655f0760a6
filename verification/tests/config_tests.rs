use fdown::config::{expand_home, split_line_at_first_equals, ConfigFile, HasHomedir};
use fdown::result::FdownError;

#[test]
fn simple_reader() {
    let reader = "foo=bar\nquux=bam";
    let config = ConfigFile::new_with_bufread(reader).unwrap();
    assert_eq!("bar", config.required_string("foo").unwrap());
    assert_eq!("bam", config.required_string("quux").unwrap());
}

#[test]
fn comments_blank_lines() {
    let reader = "\nquux=bam\n# a comment\nfoo=bar\n";
    let config = ConfigFile::new_with_bufread(reader).unwrap();
    assert_eq!("bar", config.required_string("foo").unwrap());
    assert_eq!("bam", config.required_string("quux").unwrap());
}

#[test]
fn split_line_basic() {
    assert_eq!(("foo", "bar"), split_line_at_first_equals("foo=bar").unwrap());
    assert_eq!(("foo", "bar"), split_line_at_first_equals("foo = bar").unwrap());
    assert_eq!(("foo", "bar"), split_line_at_first_equals("foo =bar").unwrap());
    assert_eq!(("foo", "bar"), split_line_at_first_equals("foo= bar").unwrap());
    assert_eq!(("foo", "bar"), split_line_at_first_equals(" foo=bar ").unwrap());
    assert_eq!(("foo", "bar"), split_line_at_first_equals("   foo =  bar    ").unwrap());

    assert_eq!(("foo", ""), split_line_at_first_equals("foo=").unwrap());
}

struct TestHomeDirProvider {}

impl HasHomedir for TestHomeDirProvider {
    fn home_dir(&self) -> String {
        "/foo/bar/home".to_string()
    }
}

struct FailingHomeDirProvider {}

impl HasHomedir for FailingHomeDirProvider {
    fn home_dir(&self) -> String {
        assert!(false);
        "/never/returns/this".to_string()
    }
}

#[test]
fn twiddle() {
    assert_eq!(None, fdown::config::twiddle("/quux", TestHomeDirProvider {}));
    assert_eq!(
        Some("/foo/bar/home/quux".to_string()),
        fdown::config::twiddle("~/quux", TestHomeDirProvider {})
    );
    assert_eq!(None, fdown::config::twiddle("~quux", TestHomeDirProvider {}));
    assert_eq!(None, fdown::config::twiddle("/foo/~/bar", TestHomeDirProvider {}));
}

#[test]
#[should_panic]
fn twiddle_no_home_dir() {
    fdown::config::twiddle("~/quux", FailingHomeDirProvider {});
}

#[test]
fn twiddle_no_home_dir_with_absolute_path() {
    fdown::config::twiddle("/quux", FailingHomeDirProvider {});
}

#[test]
#[should_panic]
fn split_line_with_no_equals() {
    split_line_at_first_equals("foo bar").unwrap();
}

#[test]
fn split_line_without_equals_is_bad_config() {
    assert_eq!(
        Err(FdownError::BadConfig("Missing '=' in config file: \"foo bar\"".to_string())),
        split_line_at_first_equals("foo bar")
    );
}

#[test]
fn split_line_splits_at_the_first_equals() {
    assert_eq!(Ok(("a", "b=c")), split_line_at_first_equals("a=b=c"));
    assert_eq!(Ok(("", "")), split_line_at_first_equals("="));
    assert_eq!(Ok(("k", "v w")), split_line_at_first_equals("\tk\u{a0}=\u{3000}v w\r"));
}

#[test]
fn missing_key_is_bad_config() {
    let config = ConfigFile::new_with_bufread("foo=bar").unwrap();
    assert_eq!(
        Err(FdownError::BadConfig("Required config value, token, missing".to_string())),
        config.required_string("token").map(|s| s.clone())
    );
}

#[test]
fn later_value_replaces_earlier() {
    let config = ConfigFile::new_with_bufread("a=1\nb=2\na=3\n").unwrap();
    assert_eq!("3", config.required_string("a").unwrap());
    assert_eq!("2", config.required_string("b").unwrap());
}

#[test]
fn line_without_equals_fails_the_file() {
    let r = ConfigFile::new_with_bufread("a=1\nnonsense\r\nalso bad\nb=2\n");
    assert_eq!(
        Some(FdownError::BadConfig("Missing '=' in config file: \"nonsense\"".to_string())),
        r.err()
    );
}

#[test]
fn carriage_returns_and_indented_comments() {
    let config = ConfigFile::new_with_bufread("a=1\r\n   # c=3\r\n\r\n  b = 2  \r\n").unwrap();
    assert_eq!("1", config.required_string("a").unwrap());
    assert_eq!("2", config.required_string("b").unwrap());
    assert!(config.required_string("c").is_err());
    assert!(config.required_string("# c").is_err());
}

#[test]
fn empty_text_has_no_settings() {
    let config = ConfigFile::new_with_bufread("").unwrap();
    assert!(config.required_string("a").is_err());
}

#[test]
fn expand_home_joins_with_one_separator() {
    assert_eq!(Some("/h/quux".to_string()), expand_home("~/quux", "/h"));
    assert_eq!(Some("/h/quux".to_string()), expand_home("~/quux", "/h/"));
    assert_eq!(Some("/h/a/b".to_string()), expand_home("~//a/b", "/h"));
    assert_eq!(Some("/h/".to_string()), expand_home("~", "/h"));
    assert_eq!(None, expand_home("", "/h"));
    assert_eq!(None, expand_home("a/~", "/h"));
}
