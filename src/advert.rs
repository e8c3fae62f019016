use vstd::prelude::*;
use vstd::string::*;

verus! {

/// Why one advert could not be carried through the pipeline.
#[derive(PartialEq, Eq, Structural, Debug, Clone, Copy)]
pub enum PipelineError {
    /// The listing URL does not belong to the supported source.
    InvalidAdvert,
    /// The detail could not be fetched or stored on first sight.
    CacheError,
    /// The stored detail is missing or is not a JSON document.
    CorruptCache,
    /// No home directory is known, so there is no configuration root.
    MissingHome,
}

/// Listing URLs of the supported source start with this prefix; the rest is
/// the advert's identifier.
pub open spec fn advert_prefix() -> Seq<char> {
    "https://arbetsformedlingen.se/platsbanken/annonser/"@
}

/// Detail documents are fetched from this base followed by the identifier.
pub open spec fn api_base() -> Seq<char> {
    "https://platsbanken-api.arbetsformedlingen.se/jobs/v1/job/"@
}

/// A listing URL of the supported source: the prefix and a non-empty
/// identifier after it.
pub open spec fn is_advert_url(url: Seq<char>) -> bool {
    &&& url.len() > advert_prefix().len()
    &&& url.subrange(0, advert_prefix().len() as int) == advert_prefix()
}

/// The identifier: what follows the fixed prefix.
pub open spec fn advert_id(url: Seq<char>) -> Seq<char> {
    url.subrange(advert_prefix().len() as int, url.len() as int)
}

/// Appending a relative path component, with one separator between.
pub open spec fn path_join(base: Seq<char>, rel: Seq<char>) -> Seq<char> {
    if base.len() == 0 || base.last() == '/' {
        base + rel
    } else {
        base + seq!['/'] + rel
    }
}

pub(crate) fn join(base: &str, rel: &str) -> (r: String)
    ensures
        r@ == path_join(base@, rel@),
{
    let mut out = base.to_owned();
    let n = base.unicode_len();
    if n > 0 && base.get_char(n - 1) != '/' {
        out.append("/");
        proof {
            reveal_strlit("/");
        }
    }
    out.append(rel);
    out
}

/// One job posting of the supported source, held by its listing URL.
/// Only URLs that carry the source's prefix and a non-empty identifier
/// can be made into an advert.
pub struct Advert {
    url: String,
}

impl View for Advert {
    type V = Seq<char>;

    closed spec fn view(&self) -> Seq<char> {
        self.url@
    }
}

impl Advert {
    #[verifier::type_invariant]
    spec fn inv(&self) -> bool {
        is_advert_url(self.url@)
    }

    /// Resolves a listing URL; a URL of any other shape is refused.
    pub fn from_url(url: &str) -> (r: Result<Advert, PipelineError>)
        ensures
            r is Ok <==> is_advert_url(url@),
            r is Ok ==> r->Ok_0@ == url@,
            r is Err ==> r->Err_0 == PipelineError::InvalidAdvert,
    {
        let prefix = "https://arbetsformedlingen.se/platsbanken/annonser/";
        proof {
            reveal_strlit("https://arbetsformedlingen.se/platsbanken/annonser/");
        }
        let plen = prefix.unicode_len();
        let n = url.unicode_len();
        if n <= plen {
            return Err(PipelineError::InvalidAdvert);
        }
        let mut i: usize = 0;
        while i < plen
            invariant
                plen == advert_prefix().len(),
                prefix@ == advert_prefix(),
                n == url@.len(),
                plen < n,
                i <= plen,
                forall|j: int| 0 <= j < i ==> url@[j] == advert_prefix()[j],
            decreases plen - i,
        {
            if url.get_char(i) != prefix.get_char(i) {
                assert(url@.subrange(0, plen as int)[i as int] != advert_prefix()[i as int]);
                return Err(PipelineError::InvalidAdvert);
            }
            i = i + 1;
        }
        assert(url@.subrange(0, plen as int) =~= advert_prefix());
        Ok(Advert { url: url.to_owned() })
    }

    /// The advert's identifier: the URL without the source prefix.
    pub fn get_id(&self) -> (r: String)
        ensures
            r@ == advert_id(self@),
            r@.len() > 0,
    {
        proof {
            use_type_invariant(self);
            reveal_strlit("https://arbetsformedlingen.se/platsbanken/annonser/");
        }
        let start: usize = 51;
        let s = self.url.as_str();
        let n = s.unicode_len();
        s.substring_char(start, n).to_owned()
    }

    /// Where the advert's full detail is fetched from.
    pub fn get_api(&self) -> (r: String)
        ensures
            r@ == api_base() + advert_id(self@),
    {
        let id = self.get_id();
        let mut out = "https://platsbanken-api.arbetsformedlingen.se/jobs/v1/job/".to_owned();
        out.append(id.as_str());
        out
    }

    /// The cache file of the advert's detail under a configuration root:
    /// `<root>/Jobs/<id>.json`.
    pub fn to_json_file_name(&self, config_dir: &str) -> (r: String)
        ensures
            r@ == path_join(path_join(config_dir@, "Jobs"@), advert_id(self@) + ".json"@),
    {
        let dir = join(config_dir, "Jobs");
        let mut name = self.get_id();
        name.append(".json");
        join(dir.as_str(), name.as_str())
    }
}

} // verus!
