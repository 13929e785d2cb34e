//! The supported services, their ranking, and their encoders and decoders.

use vstd::prelude::*;
use vstd::string::*;
use crate::decode::{
    attribute, attribute_value, drop_last_char, lemma_quoted_value_needs_key,
    lemma_tagged_value_needs_close, lemma_tagged_value_without_lead, prefixed, quoted, quoted_value, strip_backslashes, tagged,
    tagged_value, without, without_last,
};
use crate::text::occurs;
use crate::request::{ContentType, Method, Request, RequestView};

verus! {

/// The field of a bam.bz reply that holds the short link.
pub const BAMBZ_KEY: &'static str = "\"url\"";

/// The address that bam.bz takes requests at.
pub const BAMBZ_ENDPOINT: &'static str = "https://bam.bz/api/short";

/// What stands before the long URL in the body of a bam.bz request.
pub const BAMBZ_PARAM: &'static str = "target=";

/// The tag that opens the short link in a bn.gy reply.
pub const BNGY_OPEN: &'static str = "<ShortenedUrl>";

/// The tag that closes the short link in a bn.gy reply.
pub const BNGY_CLOSE: &'static str = "</ShortenedUrl>";

/// What stands before the long URL in the address of a bn.gy request.
pub const BNGY_ENDPOINT: &'static str = "https://bn.gy/API.asmx/CreateUrl?real_url=";

/// The field of a fifo.cc reply that holds the name of the short link.
pub const FIFOCC_KEY: &'static str = "\"shortner\"";

/// What a fifo.cc short link begins with, before its name.
pub const FIFOCC_BASE: &'static str = "http://fifo.cc/";

/// What stands before the long URL in the address of a fifo.cc request.
pub const FIFOCC_ENDPOINT: &'static str = "https://fifo.cc/api/v2?url=";

/// The tag that opens the short link in a hec.su reply.
pub const HECSU_OPEN: &'static str = "<short>";

/// The tag that closes the short link in a hec.su reply.
pub const HECSU_CLOSE: &'static str = "</short>";

/// What stands before the long URL in the address of a hec.su request.
pub const HECSU_ENDPOINT: &'static str = "https://hec.su/api?url=";

/// What stands behind the long URL in the address of a hec.su request.
pub const HECSU_TAIL: &'static str = "&method=xml";

/// What stands before the long URL in the address of an is.gd request.
pub const ISGD_ENDPOINT: &'static str = "https://is.gd/create.php?format=simple&url=";

/// What stands before the long URL in the address of a nowlinks.net request.
pub const NOWLINKS_ENDPOINT: &'static str = "http://nowlinks.net/api?url=";

/// What stands before the long URL in the address of a phx.co.in request.
pub const PHXCOIN_ENDPOINT: &'static str = "http://phx.co.in/shrink.asp?url=";

/// The tag that opens the short link in a psbe.co reply.
pub const PSBECO_OPEN: &'static str = "<ShortUrl>";

/// The tag that closes the short link in a psbe.co reply.
pub const PSBECO_CLOSE: &'static str = "</ShortUrl>";

/// What stands before the long URL in the address of a psbe.co request.
pub const PSBECO_ENDPOINT: &'static str = "http://psbe.co/API.asmx/CreateUrl?real_url=";

/// The field of a readability.com reply that holds the short link.
pub const RDD_KEY: &'static str = "\"rdd_url\"";

/// The address that readability.com takes requests at.
pub const RDD_ENDPOINT: &'static str = "https://readability.com/api/shortener/v1/urls";

/// What stands before the long URL in the body of a readability.com request.
pub const RDD_PARAM: &'static str = "url=";

/// What stands before the long URL in the address of a rlu.ru request.
pub const RLU_ENDPOINT: &'static str = "http://rlu.ru/index.sema?a=api&link=";

/// What stands before the short link in the page that tinyurl.com answers
/// with.
pub const TINYURL_MARKER: &'static str = "data-clipboard-text=\"";

/// What stands behind the short link in the page that tinyurl.com answers
/// with.
pub const TINYURL_END: &'static str = "\">";

/// What stands before the long URL in the address of a tinyurl.com request.
pub const TINYURL_ENDPOINT: &'static str = "http://tinyurl.com/create.php?url=";

/// What stands before the long URL in the address of a v.gd request.
pub const VGD_ENDPOINT: &'static str = "http://v.gd/create.php?format=simple&url=";

/// Used to specify which provider to use to generate a short URL.
#[derive(Clone, Copy, Debug, PartialEq, Eq, Hash, Structural)]
pub enum Provider {
    /// https://bam.bz provider
    BamBz,
    /// https://bn.gy provider
    BnGy,
    /// http://fifo.cc provider
    FifoCc,
    /// https://hec.su provider
    ///
    /// * Limited to 3000 API requests per day
    HecSu,
    /// https://is.gd provider
    IsGd,
    /// http://nowlinks.net provider
    NowLinks,
    /// http://phx.co.in provider
    /// After some time shows ads
    PhxCoIn,
    /// http://psbe.co provider
    PsbeCo,
    /// http://readbility.com provider
    Rdd,
    /// http://rlu.ru provider
    ///
    /// * Attention! If you send a lot of requests from one IP, it can be
    /// blocked. If you plan to add more then 100 URLs in one hour, please let
    /// the technical support know. Otherwise your IP can be blocked
    /// unexpectedly. Prior added URLs can be deleted.
    Rlu,
    /// http://tinyurl.com provider
    /// * Note: this service does not provide any API.
    /// The implementation result depends on the service result web page.
    TinyUrl,
    /// https://v.gd provider
    VGd,
}

impl Provider {
    /// The domain name of each provider, as a sequence of characters.
    pub open spec fn domain(self) -> Seq<char> {
        match self {
            Provider::BamBz => "bam.bz"@,
            Provider::BnGy => "bn.gy"@,
            Provider::FifoCc => "fifo.cc"@,
            Provider::HecSu => "hec.su"@,
            Provider::IsGd => "is.gd"@,
            Provider::NowLinks => "nowlinks.net"@,
            Provider::PhxCoIn => "phx.co.in"@,
            Provider::PsbeCo => "psbe.co"@,
            Provider::Rdd => "readability.com"@,
            Provider::Rlu => "rlu.ru"@,
            Provider::TinyUrl => "tinyurl.com"@,
            Provider::VGd => "v.gd"@,
        }
    }

    /// The short link that a reply of this provider holds, if it holds one.
    pub open spec fn decoded(self, body: Seq<char>) -> Option<Seq<char>> {
        match self {
            Provider::BamBz => match quoted_value(body, BAMBZ_KEY@) {
                Some(value) => Some(without(value, '\\')),
                None => None,
            },
            Provider::BnGy => tagged_value(body, BNGY_OPEN@, BNGY_CLOSE@),
            Provider::FifoCc => match quoted_value(body, FIFOCC_KEY@) {
                Some(name) => Some(FIFOCC_BASE@ + name),
                None => None,
            },
            Provider::HecSu => tagged_value(body, HECSU_OPEN@, HECSU_CLOSE@),
            Provider::IsGd => Some(body),
            Provider::NowLinks => Some(body),
            Provider::PhxCoIn => Some(body),
            Provider::PsbeCo => tagged_value(body, PSBECO_OPEN@, PSBECO_CLOSE@),
            Provider::Rdd => match quoted_value(body, RDD_KEY@) {
                Some(value) => Some(without_last(value)),
                None => None,
            },
            Provider::Rlu => Some(body),
            Provider::TinyUrl => attribute_value(body, TINYURL_MARKER@, TINYURL_END@),
            Provider::VGd => Some(body),
        }
    }

    /// The request that asks this provider to shorten `url`. The long URL is
    /// put in as it stands, with nothing escaped.
    pub open spec fn encoded(self, url: Seq<char>) -> RequestView {
        match self {
            Provider::BamBz => RequestView::post(
                BAMBZ_ENDPOINT@,
                BAMBZ_PARAM@ + url,
                Some(ContentType::FormUrlEncoded),
            ),
            Provider::BnGy => RequestView::get(BNGY_ENDPOINT@ + url),
            Provider::FifoCc => RequestView::get(FIFOCC_ENDPOINT@ + url),
            Provider::HecSu => RequestView::get(HECSU_ENDPOINT@ + url + HECSU_TAIL@),
            Provider::IsGd => RequestView::get(ISGD_ENDPOINT@ + url),
            Provider::NowLinks => RequestView::get(NOWLINKS_ENDPOINT@ + url),
            Provider::PhxCoIn => RequestView::get(PHXCOIN_ENDPOINT@ + url),
            Provider::PsbeCo => RequestView::get(PSBECO_ENDPOINT@ + url),
            Provider::Rdd => RequestView::post(RDD_ENDPOINT@, RDD_PARAM@ + url, None),
            Provider::Rlu => RequestView::get(RLU_ENDPOINT@ + url),
            Provider::TinyUrl => RequestView::get(TINYURL_ENDPOINT@ + url),
            Provider::VGd => RequestView::get(VGD_ENDPOINT@ + url),
        }
    }

    /// Converts the Provider variant into its domain name equivalent.
    pub fn to_name(&self) -> (name: &str)
        ensures
            name@ == self.domain(),
            name@.len() > 0,
    {
        proof {
            reveal_strlit("bam.bz");
            reveal_strlit("bn.gy");
            reveal_strlit("fifo.cc");
            reveal_strlit("hec.su");
            reveal_strlit("is.gd");
            reveal_strlit("nowlinks.net");
            reveal_strlit("phx.co.in");
            reveal_strlit("psbe.co");
            reveal_strlit("readability.com");
            reveal_strlit("rlu.ru");
            reveal_strlit("tinyurl.com");
            reveal_strlit("v.gd");
        }
        match *self {
            Provider::BamBz => "bam.bz",
            Provider::BnGy => "bn.gy",
            Provider::FifoCc => "fifo.cc",
            Provider::HecSu => "hec.su",
            Provider::IsGd => "is.gd",
            Provider::NowLinks => "nowlinks.net",
            Provider::PhxCoIn => "phx.co.in",
            Provider::PsbeCo => "psbe.co",
            Provider::Rdd => "readability.com",
            Provider::Rlu => "rlu.ru",
            Provider::TinyUrl => "tinyurl.com",
            Provider::VGd => "v.gd",
        }
    }
}

/// All providers, the ones to prefer first. Those that limit the rate of
/// requests, offer no API, work unreliably, show a preview or show ads stand
/// at the end.
pub open spec fn ranking() -> Seq<Provider> {
    seq![
        Provider::IsGd,
        Provider::BnGy,
        Provider::VGd,
        Provider::Rdd,
        Provider::BamBz,
        Provider::FifoCc,
        Provider::Rlu,
        Provider::HecSu,
        Provider::TinyUrl,
        Provider::PsbeCo,
        Provider::NowLinks,
        Provider::PhxCoIn,
    ]
}

/// Returns a vector of all `Provider` variants.
///
/// The providers which are discouraged from use due to limitations such as
/// rate limitations are at the end of the resultant vector.
pub fn providers() -> (all: Vec<Provider>)
    ensures
        all@ == ranking(),
        all@.len() == 12,
        all@.no_duplicates(),
        forall|provider: Provider| all@.contains(provider),
{
    let all = vec![
        Provider::IsGd,
        Provider::BnGy,
        Provider::VGd,
        Provider::Rdd,
        Provider::BamBz,
        Provider::FifoCc,
        // The following list are items that are discouraged from use.
        // Reason: rate limit (100 requests per hour)
        Provider::Rlu,
        // Reason: rate limit (3000 requests per day)
        Provider::HecSu,
        // Reason: does not provide an api
        Provider::TinyUrl,
        // Reason: unstable work
        Provider::PsbeCo,
        // The following list are items that show previews instead of direct links.
        Provider::NowLinks,
        // The following list are items that show ads and have a timeout before
        // you may go on to the long URL.
        Provider::PhxCoIn,
    ];
    proof {
        lemma_ranking_is_complete();
    }
    all
}

/// The ranking names each of the twelve providers exactly once.
pub proof fn lemma_ranking_is_complete()
    ensures
        ranking().len() == 12,
        ranking().no_duplicates(),
        forall|provider: Provider| ranking().contains(provider),
{
    let all = ranking();
    assert forall|provider: Provider| all.contains(provider) by {
        let at: int = match provider {
            Provider::IsGd => 0,
            Provider::BnGy => 1,
            Provider::VGd => 2,
            Provider::Rdd => 3,
            Provider::BamBz => 4,
            Provider::FifoCc => 5,
            Provider::Rlu => 6,
            Provider::HecSu => 7,
            Provider::TinyUrl => 8,
            Provider::PsbeCo => 9,
            Provider::NowLinks => 10,
            Provider::PhxCoIn => 11,
        };
        assert(all[at] == provider);
    }
}

/// A value without `<` that stands between the tags of a provider is what
/// the decoder of that provider returns.
pub proof fn lemma_tag_decoders_return_the_enclosed_value(value: Seq<char>)
    requires
        forall|i: int| 0 <= i < value.len() ==> value[i] != '<',
    ensures
        Provider::BnGy.decoded(BNGY_OPEN@ + value + BNGY_CLOSE@) == Some(value),
        Provider::HecSu.decoded(HECSU_OPEN@ + value + HECSU_CLOSE@) == Some(value),
        Provider::PsbeCo.decoded(PSBECO_OPEN@ + value + PSBECO_CLOSE@) == Some(value),
{
    reveal_strlit("<ShortenedUrl>");
    reveal_strlit("</ShortenedUrl>");
    reveal_strlit("<short>");
    reveal_strlit("</short>");
    reveal_strlit("<ShortUrl>");
    reveal_strlit("</ShortUrl>");
    assert(BNGY_CLOSE@.subrange(0, BNGY_OPEN@.len() as int)[1] != BNGY_OPEN@[1]);
    assert(HECSU_CLOSE@.subrange(0, HECSU_OPEN@.len() as int)[1] != HECSU_OPEN@[1]);
    assert(PSBECO_CLOSE@.subrange(0, PSBECO_OPEN@.len() as int)[1] != PSBECO_OPEN@[1]);
    lemma_tagged_value_without_lead(value, BNGY_OPEN@, BNGY_CLOSE@, '<');
    lemma_tagged_value_without_lead(value, HECSU_OPEN@, HECSU_CLOSE@, '<');
    lemma_tagged_value_without_lead(value, PSBECO_OPEN@, PSBECO_CLOSE@, '<');
}

/// A reply without the closing tag of a provider holds no short link for the
/// decoder of that provider, and neither does one without the opening tag.
pub proof fn lemma_tag_decoders_need_both_tags(body: Seq<char>)
    ensures
        !occurs(body, BNGY_OPEN@) || !occurs(body, BNGY_CLOSE@) ==> Provider::BnGy.decoded(body)
            is None,
        !occurs(body, HECSU_OPEN@) || !occurs(body, HECSU_CLOSE@) ==> Provider::HecSu.decoded(
            body,
        ) is None,
        !occurs(body, PSBECO_OPEN@) || !occurs(body, PSBECO_CLOSE@) ==> Provider::PsbeCo.decoded(
            body,
        ) is None,
{
    if !occurs(body, BNGY_CLOSE@) {
        lemma_tagged_value_needs_close(body, BNGY_OPEN@, BNGY_CLOSE@);
    }
    if !occurs(body, HECSU_CLOSE@) {
        lemma_tagged_value_needs_close(body, HECSU_OPEN@, HECSU_CLOSE@);
    }
    if !occurs(body, PSBECO_CLOSE@) {
        lemma_tagged_value_needs_close(body, PSBECO_OPEN@, PSBECO_CLOSE@);
    }
}

/// A reply without the key of a provider, or without the marker that
/// tinyurl.com puts before the link, holds no short link for the decoder of
/// that provider.
pub proof fn lemma_key_and_attribute_decoders_need_their_marker(body: Seq<char>)
    ensures
        !occurs(body, BAMBZ_KEY@) ==> Provider::BamBz.decoded(body) is None,
        !occurs(body, FIFOCC_KEY@) ==> Provider::FifoCc.decoded(body) is None,
        !occurs(body, RDD_KEY@) ==> Provider::Rdd.decoded(body) is None,
        !occurs(body, TINYURL_MARKER@) ==> Provider::TinyUrl.decoded(body) is None,
{
    if !occurs(body, BAMBZ_KEY@) {
        lemma_quoted_value_needs_key(body, BAMBZ_KEY@);
    }
    if !occurs(body, FIFOCC_KEY@) {
        lemma_quoted_value_needs_key(body, FIFOCC_KEY@);
    }
    if !occurs(body, RDD_KEY@) {
        lemma_quoted_value_needs_key(body, RDD_KEY@);
    }
}

/// A decoder that looks for a marker finds no short link in an empty reply.
pub proof fn lemma_empty_reply_holds_no_link(provider: Provider)
    requires
        provider != Provider::IsGd,
        provider != Provider::NowLinks,
        provider != Provider::PhxCoIn,
        provider != Provider::Rlu,
        provider != Provider::VGd,
    ensures
        provider.decoded(Seq::empty()) is None,
{
}

/// A decoder that looks for no marker takes any reply for the short link.
pub proof fn lemma_passthrough_takes_any_reply(body: Seq<char>)
    ensures
        Provider::IsGd.decoded(body) == Some(body),
        Provider::NowLinks.decoded(body) == Some(body),
        Provider::PhxCoIn.decoded(body) == Some(body),
        Provider::Rlu.decoded(body) == Some(body),
        Provider::VGd.decoded(body) == Some(body),
{
}

/// Builds a request that is sent with GET to the address `target`.
fn get_request(target: String) -> (request: Request)
    ensures
        request@ == RequestView::get(target@),
{
    Request { url: target, body: None, content_type: None, user_agent: None, method: Method::Get }
}

/// Builds a request that is sent with POST to `endpoint`, with the body
/// `param`, `url`.
fn post_request(endpoint: &str, param: &str, url: &str, content_type: Option<ContentType>) -> (request:
    Request)
    ensures
        request@ == RequestView::post(endpoint@, param@ + url@, content_type),
{
    Request {
        url: String::from_str(endpoint),
        body: Some(prefixed(param, url)),
        content_type,
        user_agent: None,
        method: Method::Post,
    }
}

/// Extracts the short link from a reply of bam.bz: the quoted value of the
/// field `"url"`, without its backslashes.
pub fn bambz_parse(res: &str) -> (short: Option<String>)
    ensures
        short.deep_view() == Provider::BamBz.decoded(res@),
        res@.len() == 0 ==> short is None,
{
    match quoted(res, BAMBZ_KEY) {
        Some(value) => Some(strip_backslashes(value.as_str())),
        None => None,
    }
}

/// Describes the request that asks bam.bz to shorten `url`.
pub fn bambz_request(url: &str) -> (request: Request)
    ensures
        request@ == Provider::BamBz.encoded(url@),
{
    post_request(BAMBZ_ENDPOINT, BAMBZ_PARAM, url, Some(ContentType::FormUrlEncoded))
}

/// Extracts the short link from a reply of bn.gy: what stands between
/// `<ShortenedUrl>` and `</ShortenedUrl>`.
pub fn bngy_parse(res: &str) -> (short: Option<String>)
    ensures
        short.deep_view() == Provider::BnGy.decoded(res@),
        res@.len() == 0 ==> short is None,
{
    tagged(res, BNGY_OPEN, BNGY_CLOSE)
}

/// Describes the request that asks bn.gy to shorten `url`.
pub fn bngy_request(url: &str) -> (request: Request)
    ensures
        request@ == Provider::BnGy.encoded(url@),
{
    get_request(prefixed(BNGY_ENDPOINT, url))
}

/// Extracts the short link from a reply of fifo.cc: the quoted value of the
/// field `"shortner"`, behind `http://fifo.cc/`.
pub fn fifocc_parse(res: &str) -> (short: Option<String>)
    ensures
        short.deep_view() == Provider::FifoCc.decoded(res@),
        res@.len() == 0 ==> short is None,
{
    match quoted(res, FIFOCC_KEY) {
        Some(name) => Some(prefixed(FIFOCC_BASE, name.as_str())),
        None => None,
    }
}

/// Describes the request that asks fifo.cc to shorten `url`.
pub fn fifocc_request(url: &str) -> (request: Request)
    ensures
        request@ == Provider::FifoCc.encoded(url@),
{
    get_request(prefixed(FIFOCC_ENDPOINT, url))
}

/// Extracts the short link from a reply of hec.su: what stands between
/// `<short>` and `</short>`.
pub fn hecsu_parse(res: &str) -> (short: Option<String>)
    ensures
        short.deep_view() == Provider::HecSu.decoded(res@),
        res@.len() == 0 ==> short is None,
{
    tagged(res, HECSU_OPEN, HECSU_CLOSE)
}

/// Describes the request that asks hec.su to shorten `url`.
pub fn hecsu_request(url: &str) -> (request: Request)
    ensures
        request@ == Provider::HecSu.encoded(url@),
{
    let mut target = prefixed(HECSU_ENDPOINT, url);
    target.append(HECSU_TAIL);
    get_request(target)
}

/// Takes a reply of is.gd as the short link, whatever it holds.
pub fn isgd_parse(res: &str) -> (short: Option<String>)
    ensures
        short.deep_view() == Provider::IsGd.decoded(res@),
        short.deep_view() == Some(res@),
{
    Some(res.to_owned())
}

/// Describes the request that asks is.gd to shorten `url`.
pub fn isgd_request(url: &str) -> (request: Request)
    ensures
        request@ == Provider::IsGd.encoded(url@),
{
    get_request(prefixed(ISGD_ENDPOINT, url))
}

/// Takes a reply of nowlinks.net as the short link, whatever it holds.
pub fn nowlinks_parse(res: &str) -> (short: Option<String>)
    ensures
        short.deep_view() == Provider::NowLinks.decoded(res@),
        short.deep_view() == Some(res@),
{
    Some(res.to_owned())
}

/// Describes the request that asks nowlinks.net to shorten `url`.
pub fn nowlinks_request(url: &str) -> (request: Request)
    ensures
        request@ == Provider::NowLinks.encoded(url@),
{
    get_request(prefixed(NOWLINKS_ENDPOINT, url))
}

/// Takes a reply of phx.co.in as the short link, whatever it holds.
pub fn phxcoin_parse(res: &str) -> (short: Option<String>)
    ensures
        short.deep_view() == Provider::PhxCoIn.decoded(res@),
        short.deep_view() == Some(res@),
{
    Some(res.to_owned())
}

/// Describes the request that asks phx.co.in to shorten `url`.
pub fn phxcoin_request(url: &str) -> (request: Request)
    ensures
        request@ == Provider::PhxCoIn.encoded(url@),
{
    get_request(prefixed(PHXCOIN_ENDPOINT, url))
}

/// Extracts the short link from a reply of psbe.co: what stands between
/// `<ShortUrl>` and `</ShortUrl>`.
pub fn psbeco_parse(res: &str) -> (short: Option<String>)
    ensures
        short.deep_view() == Provider::PsbeCo.decoded(res@),
        res@.len() == 0 ==> short is None,
{
    tagged(res, PSBECO_OPEN, PSBECO_CLOSE)
}

/// Describes the request that asks psbe.co to shorten `url`.
pub fn psbeco_request(url: &str) -> (request: Request)
    ensures
        request@ == Provider::PsbeCo.encoded(url@),
{
    get_request(prefixed(PSBECO_ENDPOINT, url))
}

/// Extracts the short link from a reply of readability.com: the quoted value
/// of the field `"rdd_url"`, without its last character.
pub fn rdd_parse(res: &str) -> (short: Option<String>)
    ensures
        short.deep_view() == Provider::Rdd.decoded(res@),
        res@.len() == 0 ==> short is None,
{
    match quoted(res, RDD_KEY) {
        Some(value) => Some(drop_last_char(value.as_str())),
        None => None,
    }
}

/// Describes the request that asks readability.com to shorten `url`.
pub fn rdd_request(url: &str) -> (request: Request)
    ensures
        request@ == Provider::Rdd.encoded(url@),
{
    post_request(RDD_ENDPOINT, RDD_PARAM, url, None)
}

/// Takes a reply of rlu.ru as the short link, whatever it holds.
pub fn rlu_parse(res: &str) -> (short: Option<String>)
    ensures
        short.deep_view() == Provider::Rlu.decoded(res@),
        short.deep_view() == Some(res@),
{
    Some(res.to_owned())
}

/// Describes the request that asks rlu.ru to shorten `url`.
pub fn rlu_request(url: &str) -> (request: Request)
    ensures
        request@ == Provider::Rlu.encoded(url@),
{
    get_request(prefixed(RLU_ENDPOINT, url))
}

/// Extracts the short link from the page that tinyurl.com answers with: what
/// stands between `data-clipboard-text="` and `">`.
pub fn tinyurl_parse(res: &str) -> (short: Option<String>)
    ensures
        short.deep_view() == Provider::TinyUrl.decoded(res@),
        res@.len() == 0 ==> short is None,
{
    attribute(res, TINYURL_MARKER, TINYURL_END)
}

/// Describes the request that asks tinyurl.com to shorten `url`.
pub fn tinyurl_request(url: &str) -> (request: Request)
    ensures
        request@ == Provider::TinyUrl.encoded(url@),
{
    get_request(prefixed(TINYURL_ENDPOINT, url))
}

/// Takes a reply of v.gd as the short link, whatever it holds.
pub fn vgd_parse(res: &str) -> (short: Option<String>)
    ensures
        short.deep_view() == Provider::VGd.decoded(res@),
        short.deep_view() == Some(res@),
{
    Some(res.to_owned())
}

/// Describes the request that asks v.gd to shorten `url`.
pub fn vgd_request(url: &str) -> (request: Request)
    ensures
        request@ == Provider::VGd.encoded(url@),
{
    get_request(prefixed(VGD_ENDPOINT, url))
}

/// Parses the response from a successful request to a provider into the
/// URL-shortened string.
pub fn parse(res: &str, provider: Provider) -> (short: Option<String>)
    ensures
        short.deep_view() == provider.decoded(res@),
{
    match provider {
        Provider::BamBz => bambz_parse(res),
        Provider::BnGy => bngy_parse(res),
        Provider::FifoCc => fifocc_parse(res),
        Provider::HecSu => hecsu_parse(res),
        Provider::IsGd => isgd_parse(res),
        Provider::NowLinks => nowlinks_parse(res),
        Provider::PhxCoIn => phxcoin_parse(res),
        Provider::PsbeCo => psbeco_parse(res),
        Provider::Rdd => rdd_parse(res),
        Provider::Rlu => rlu_parse(res),
        Provider::TinyUrl => tinyurl_parse(res),
        Provider::VGd => vgd_parse(res),
    }
}

/// Describes the request to the short link provider that asks it to shorten
/// `url`.
pub fn request(url: &str, provider: Provider) -> (request: Request)
    ensures
        request@ == provider.encoded(url@),
{
    match provider {
        Provider::BamBz => bambz_request(url),
        Provider::BnGy => bngy_request(url),
        Provider::FifoCc => fifocc_request(url),
        Provider::HecSu => hecsu_request(url),
        Provider::IsGd => isgd_request(url),
        Provider::NowLinks => nowlinks_request(url),
        Provider::PhxCoIn => phxcoin_request(url),
        Provider::PsbeCo => psbeco_request(url),
        Provider::Rdd => rdd_request(url),
        Provider::Rlu => rlu_request(url),
        Provider::TinyUrl => tinyurl_request(url),
        Provider::VGd => vgd_request(url),
    }
}

} // verus!
