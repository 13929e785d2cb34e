use urlshortener::decode::{
    attribute, drop_last_char, prefixed, quoted, strip_backslashes, tagged,
};
use urlshortener::providers::{
    bambz_parse, bngy_parse, fifocc_parse, hecsu_parse, isgd_parse, nowlinks_parse, parse,
    phxcoin_parse, providers, psbeco_parse, rdd_parse, rlu_parse, tinyurl_parse, vgd_parse,
    Provider,
};

fn some(s: &str) -> Option<String> {
    Some(s.to_string())
}

// What the tag decoders are meant to return, written with the standard
// library's `split`.
fn tagged_by_split(body: &str, open: &str, close: &str) -> Option<String> {
    if body.is_empty() {
        return None;
    }
    let at = body.find(open)?;
    let rest = &body[at + open.len()..];
    if !rest.contains(close) {
        return None;
    }
    let piece = body.split(open).nth(1)?;
    piece.split(close).next().map(|s| s.to_string())
}

// What the key decoders are meant to return before the value is reworked,
// written with the standard library's `split`.
fn quoted_by_split(body: &str, key: &str) -> Option<String> {
    if body.is_empty() {
        return None;
    }
    body.split(key)
        .nth(1)
        .unwrap_or("")
        .split(",")
        .next()
        .unwrap_or("")
        .split("\"")
        .nth(1)
        .map(|s| s.to_string())
}

// What the attribute decoder is meant to return, written with the standard
// library's `split`.
fn attribute_by_split(body: &str, marker: &str, end: &str) -> Option<String> {
    if body.is_empty() {
        return None;
    }
    let piece = body.split(marker).nth(1)?;
    piece.split(end).next().map(|s| s.to_string())
}

const BODIES: [&str; 30] = [
    "",
    " ",
    "<short>",
    "</short>",
    "<short></short>",
    "<short>http://hec.su/abc</short>",
    "<short>http://hec.su/abc",
    "http://hec.su/abc</short>",
    "</short><short>abc",
    "<short>a<short>b</short>",
    "<short>a</short><short>b</short>",
    "<short>a<short>b",
    "x<short<short>>v</short></short>",
    "<<short>short>v</</short>short>",
    "<short>é€😀</short>",
    "€<short>é</short>😀",
    "<ShortenedUrl>http://bn.gy/xyz</ShortenedUrl>",
    "<ShortUrl>http://psbe.co/xyz</ShortUrl>",
    "{\"url\":\"https:\\/\\/bam.bz\\/abc\",\"status\":\"ok\"}",
    "{\"url\",\"other\":\"x\"}",
    "{\"url\":1,\"short\":\"http://x\"}",
    "{\"url\":\"abc",
    "{\"url\":\"a,b\"}",
    "\"url\":\"a\" \"url\":\"b\"",
    "\"url\"\"url\"",
    "\"url\"",
    "{\"shortner\":\"abc\",\"url\":\"http://example.com\"}",
    "{\"rdd_url\": \"http://rdd.me/abcd\", \"id\": \"q\"}",
    "<a data-clipboard-text=\"http://tinyurl.com/abc\">copy</a>",
    "data-clipboard-text=\"one data-clipboard-text=\"two\">",
];

#[test]
fn tag_decoders_return_the_value_between_the_tags() {
    assert_eq!(
        bngy_parse("<ShortenedUrl>http://bn.gy/xyz</ShortenedUrl>"),
        some("http://bn.gy/xyz")
    );
    assert_eq!(hecsu_parse("<short>http://hec.su/abc</short>"), some("http://hec.su/abc"));
    assert_eq!(
        psbeco_parse("<ShortUrl>http://psbe.co/xyz</ShortUrl>"),
        some("http://psbe.co/xyz")
    );
}

#[test]
fn tag_decoders_ignore_what_stands_around_the_tags() {
    let body = "<?xml version=\"1.0\"?>\n<string><ShortenedUrl>http://bn.gy/q</ShortenedUrl></string>";
    assert_eq!(bngy_parse(body), some("http://bn.gy/q"));
    assert_eq!(
        hecsu_parse("<result><long>http://a.b</long><short>http://hec.su/q</short></result>"),
        some("http://hec.su/q")
    );
    assert_eq!(psbeco_parse("x<ShortUrl>y</ShortUrl>z"), some("y"));
}

#[test]
fn tag_decoders_return_an_empty_value() {
    assert_eq!(bngy_parse("<ShortenedUrl></ShortenedUrl>"), some(""));
    assert_eq!(hecsu_parse("<short></short>"), some(""));
    assert_eq!(psbeco_parse("<ShortUrl></ShortUrl>"), some(""));
}

#[test]
fn tag_decoders_need_the_closing_tag() {
    assert_eq!(bngy_parse("<ShortenedUrl>http://bn.gy/xyz"), None);
    assert_eq!(hecsu_parse("<short>http://hec.su/abc"), None);
    assert_eq!(psbeco_parse("<ShortUrl>http://psbe.co/xyz"), None);
    assert_eq!(hecsu_parse("</short><short>abc"), None);
    assert_eq!(hecsu_parse("<short>a<short>b"), None);
}

#[test]
fn tag_decoders_need_the_opening_tag() {
    assert_eq!(bngy_parse("http://bn.gy/xyz</ShortenedUrl>"), None);
    assert_eq!(hecsu_parse("http://hec.su/abc</short>"), None);
    assert_eq!(psbeco_parse("http://psbe.co/xyz</ShortUrl>"), None);
    assert_eq!(bngy_parse("<shortenedurl>x</shortenedurl>"), None);
}

#[test]
fn tag_decoders_stop_at_a_second_opening_tag() {
    assert_eq!(hecsu_parse("<short>a<short>b</short>"), some("a"));
    assert_eq!(hecsu_parse("<short>a</short><short>b</short>"), some("a"));
}

#[test]
fn tag_decoders_do_not_mix_up_the_providers() {
    assert_eq!(bngy_parse("<short>x</short>"), None);
    assert_eq!(hecsu_parse("<ShortUrl>x</ShortUrl>"), None);
    assert_eq!(psbeco_parse("<ShortenedUrl>x</ShortenedUrl>"), None);
}

#[test]
fn tag_and_key_decoders_reject_an_empty_body() {
    assert_eq!(bambz_parse(""), None);
    assert_eq!(bngy_parse(""), None);
    assert_eq!(fifocc_parse(""), None);
    assert_eq!(hecsu_parse(""), None);
    assert_eq!(psbeco_parse(""), None);
    assert_eq!(rdd_parse(""), None);
    assert_eq!(tinyurl_parse(""), None);
}

#[test]
fn tagged_agrees_with_split() {
    for body in BODIES {
        for (open, close) in [
            ("<short>", "</short>"),
            ("<ShortenedUrl>", "</ShortenedUrl>"),
            ("<ShortUrl>", "</ShortUrl>"),
            ("\"", "\""),
            ("a", "b"),
            ("é", "😀"),
        ] {
            assert_eq!(tagged(body, open, close), tagged_by_split(body, open, close));
        }
    }
}

#[test]
fn bambz_takes_the_backslashes_out() {
    assert_eq!(
        bambz_parse("{\"url\":\"https:\\/\\/bam.bz\\/abc\",\"status\":\"ok\"}"),
        some("https://bam.bz/abc")
    );
    assert_eq!(bambz_parse("{\"url\":\"\\\\a\\\\\\b\\\"}"), some("ab"));
    assert_eq!(bambz_parse("{\"url\":\"plain\"}"), some("plain"));
}

#[test]
fn fifocc_puts_the_base_in_front() {
    assert_eq!(
        fifocc_parse("{\"shortner\":\"abc\",\"url\":\"http://example.com\"}"),
        some("http://fifo.cc/abc")
    );
    assert_eq!(fifocc_parse("{\"shortner\":\"\"}"), some("http://fifo.cc/"));
}

#[test]
fn rdd_drops_the_last_character() {
    assert_eq!(
        rdd_parse("{\"meta\": {\"rdd_url\": \"http://rdd.me/abcd\", \"id\": \"q\"}}"),
        some("http://rdd.me/abc")
    );
    assert_eq!(rdd_parse("{\"rdd_url\":\"\"}"), some(""));
    assert_eq!(rdd_parse("{\"rdd_url\":\"x\"}"), some(""));
    assert_eq!(rdd_parse("{\"rdd_url\":\"hé€\"}"), some("hé"));
}

#[test]
fn key_decoders_need_the_key() {
    assert_eq!(bambz_parse("{\"error\":\"bad\"}"), None);
    assert_eq!(fifocc_parse("{\"url\":\"abc\"}"), None);
    assert_eq!(rdd_parse("{\"url\":\"abc\"}"), None);
    assert_eq!(bambz_parse("url: \"abc\""), None);
}

#[test]
fn key_decoders_do_not_take_the_value_of_another_field() {
    assert_eq!(bambz_parse("{\"url\",\"other\":\"x\"}"), None);
    assert_eq!(bambz_parse("{\"url\":1,\"short\":\"http://x\"}"), None);
    assert_eq!(fifocc_parse("{\"shortner\":null,\"url\":\"http://example.com\"}"), None);
    assert_eq!(rdd_parse("{\"rdd_url\":null, \"id\": \"q\"}"), None);
}

#[test]
fn key_decoders_take_an_unclosed_value() {
    assert_eq!(bambz_parse("{\"url\":\"abc"), some("abc"));
    assert_eq!(fifocc_parse("{\"shortner\":\"abc"), some("http://fifo.cc/abc"));
    assert_eq!(rdd_parse("{\"rdd_url\":\"abc"), some("ab"));
}

#[test]
fn key_decoders_stop_at_a_comma() {
    assert_eq!(bambz_parse("{\"url\":\"a,b\"}"), some("a"));
    assert_eq!(fifocc_parse("{\"shortner\":\"a,b\"}"), some("http://fifo.cc/a"));
    assert_eq!(rdd_parse("{\"rdd_url\":\"ab,c\"}"), some("a"));
}

#[test]
fn key_decoders_stop_at_a_second_key() {
    assert_eq!(bambz_parse("\"url\":\"a\" \"url\":\"b\""), some("a"));
    assert_eq!(bambz_parse("\"url\"\"url\":\"b\""), None);
}

#[test]
fn quoted_agrees_with_split() {
    for body in BODIES {
        for key in ["\"url\"", "\"shortner\"", "\"rdd_url\"", "<short>", "a", ",", "\"", "é"] {
            assert_eq!(quoted(body, key), quoted_by_split(body, key));
        }
    }
}

#[test]
fn tinyurl_takes_the_attribute() {
    assert_eq!(
        tinyurl_parse("<a data-clipboard-text=\"http://tinyurl.com/abc\">copy</a>"),
        some("http://tinyurl.com/abc")
    );
    assert_eq!(tinyurl_parse("data-clipboard-text=\"\">"), some(""));
}

#[test]
fn tinyurl_needs_the_marker() {
    assert_eq!(tinyurl_parse("<html><body>Error</body></html>"), None);
    assert_eq!(tinyurl_parse("data-clipboard-text='http://tinyurl.com/abc'>"), None);
    assert_eq!(tinyurl_parse(" "), None);
}

#[test]
fn tinyurl_takes_the_rest_where_the_delimiter_is_missing() {
    assert_eq!(
        tinyurl_parse("<a data-clipboard-text=\"http://tinyurl.com/abc"),
        some("http://tinyurl.com/abc")
    );
    assert_eq!(
        tinyurl_parse("data-clipboard-text=\"one data-clipboard-text=\"two\">"),
        some("one ")
    );
}

#[test]
fn attribute_agrees_with_split_where_the_marker_occurs() {
    for body in BODIES {
        for (marker, end) in [("data-clipboard-text=\"", "\">"), ("<short>", "</short>"), ("a", "b")] {
            let expected =
                if body.contains(marker) { attribute_by_split(body, marker, end) } else { None };
            assert_eq!(attribute(body, marker, end), expected);
        }
    }
}

#[test]
fn passthrough_decoders_return_the_body() {
    for body in ["http://is.gd/abc123", "", " ", "<html><body>502 Bad Gateway</body></html>", "Error: é€😀"] {
        assert_eq!(isgd_parse(body), some(body));
        assert_eq!(nowlinks_parse(body), some(body));
        assert_eq!(phxcoin_parse(body), some(body));
        assert_eq!(rlu_parse(body), some(body));
        assert_eq!(vgd_parse(body), some(body));
    }
}

#[test]
fn parse_calls_the_decoder_of_the_provider() {
    for body in BODIES {
        assert_eq!(parse(body, Provider::BamBz), bambz_parse(body));
        assert_eq!(parse(body, Provider::BnGy), bngy_parse(body));
        assert_eq!(parse(body, Provider::FifoCc), fifocc_parse(body));
        assert_eq!(parse(body, Provider::HecSu), hecsu_parse(body));
        assert_eq!(parse(body, Provider::IsGd), isgd_parse(body));
        assert_eq!(parse(body, Provider::NowLinks), nowlinks_parse(body));
        assert_eq!(parse(body, Provider::PhxCoIn), phxcoin_parse(body));
        assert_eq!(parse(body, Provider::PsbeCo), psbeco_parse(body));
        assert_eq!(parse(body, Provider::Rdd), rdd_parse(body));
        assert_eq!(parse(body, Provider::Rlu), rlu_parse(body));
        assert_eq!(parse(body, Provider::TinyUrl), tinyurl_parse(body));
        assert_eq!(parse(body, Provider::VGd), vgd_parse(body));
    }
}

#[test]
fn parse_gives_each_provider_its_own_result() {
    let body = "{\"url\":\"https:\\/\\/bam.bz\\/abc\"}";
    assert_eq!(parse(body, Provider::BamBz), some("https://bam.bz/abc"));
    assert_eq!(parse(body, Provider::FifoCc), None);
    assert_eq!(parse(body, Provider::IsGd), some(body));
    assert_eq!(parse("<short>s</short>", Provider::HecSu), some("s"));
    assert_eq!(parse("<short>s</short>", Provider::BnGy), None);
    for provider in providers() {
        let _ = parse("", provider);
    }
}

#[test]
fn strip_backslashes_removes_every_backslash() {
    assert_eq!(strip_backslashes(""), "");
    assert_eq!(strip_backslashes("\\"), "");
    assert_eq!(strip_backslashes("\\\\\\"), "");
    assert_eq!(strip_backslashes("abc"), "abc");
    assert_eq!(strip_backslashes("\\a\\\\b\\c\\"), "abc");
    assert_eq!(strip_backslashes("http:\\/\\/é€\\/😀"), "http://é€/😀");
    assert_eq!(strip_backslashes("a/b"), "a/b");
}

#[test]
fn drop_last_char_removes_one_character() {
    assert_eq!(drop_last_char(""), "");
    assert_eq!(drop_last_char("a"), "");
    assert_eq!(drop_last_char("ab"), "a");
    assert_eq!(drop_last_char("a😀"), "a");
    assert_eq!(drop_last_char("😀é"), "😀");
}

#[test]
fn prefixed_joins_base_and_value() {
    assert_eq!(prefixed("", ""), "");
    assert_eq!(prefixed("http://fifo.cc/", "abc"), "http://fifo.cc/abc");
    assert_eq!(prefixed("é", "€"), "é€");
    assert_eq!(prefixed("a", ""), "a");
}
