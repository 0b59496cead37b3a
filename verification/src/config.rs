//! The configuration of a run and the addresses that follow from it.

use crate::filter::{pattern_is_usable, pattern_usable, ContentFilter};
use crate::text::{
    comma_separated, decimal, decimal_string, join, joined, lemma_join_of_split, split_list, views,
};
use vstd::prelude::*;
use vstd::string::*;

verus! {

/// Why a configuration cannot be run.
#[derive(Clone, Copy, Debug, PartialEq, Eq, Structural)]
pub enum ConfigError {
    /// The bound on concurrent uploads is zero.
    ZeroConcurrency,
    /// The exclusion pattern is no usable expression.
    InvalidExcludePattern,
    /// The inclusion pattern is no usable expression.
    InvalidIncludePattern,
    /// The address of the endpoint cannot be parsed.
    MalformedUrl,
}

/// Configuration for posting files to a Solr server.
#[derive(Clone, Debug)]
pub struct PostConfig {
    /// Upper bound on the number of uploads in flight; 8 unless set.
    pub concurrency: usize,
    /// Host of the Solr server; `localhost` unless set.
    pub host: String,
    /// Port of the Solr server; 8983 unless set.
    pub port: u16,
    /// The collection to post to.
    pub collection: String,
    /// The directory to search for files.
    pub directory_path: String,
    /// The file extensions to post.
    pub file_extensions: Vec<String>,
    /// A glob to search with in place of the extensions.
    pub glob_pattern: Option<String>,
    /// Base update address; replaces host, port and collection.
    pub update_url: Option<String>,
    /// Files whose content holds this pattern are left out; wins over
    /// `include_regex`.
    pub exclued_regex: Option<String>,
    /// Only files whose content holds this pattern are posted.
    pub include_regex: Option<String>,
    /// Credentials for basic authentication, as `user:pass`.
    pub basic_auth_creds: Option<String>,
}

/// The extensions searched for unless others are configured.
pub open spec fn default_extensions() -> Seq<Seq<char>> {
    seq![
        "xml"@,
        "json"@,
        "jsonl"@,
        "csv"@,
        "pdf"@,
        "doc"@,
        "docx"@,
        "ppt"@,
        "pptx"@,
        "xls"@,
        "xlsx"@,
        "odt"@,
        "odp"@,
        "ods"@,
        "ott"@,
        "otp"@,
        "ots"@,
        "rtf"@,
        "htm"@,
        "html"@,
        "txt"@,
        "log"@,
    ]
}

/// The glob that finds files with one of the extensions, at any depth.
pub open spec fn extension_glob(extensions: Seq<Seq<char>>) -> Seq<char> {
    "**/*.{"@ + joined(extensions, ","@) + "}"@
}

/// The address of the collection `collection` on `host`:`port`.
pub open spec fn collection_base(host: Seq<char>, port: u16, collection: Seq<char>) -> Seq<char> {
    "http://"@ + host + ":"@ + decimal(port as nat) + "/solr/"@ + collection
}

/// The value of the `Authorization` header for credentials whose base64
/// form is `encoded`.
pub open spec fn basic_authorization(encoded: Seq<char>) -> Seq<char> {
    "Basic "@ + encoded
}

/// The standard base64 form, with padding, of the UTF-8 bytes of `text`.
pub uninterp spec fn base64_standard(text: Seq<char>) -> Seq<char>;

/// Whether `text` parses as an absolute URL.
pub uninterp spec fn url_well_formed(text: Seq<char>) -> bool;

/// `base64::Engine::encode` of the engine `base64::prelude::BASE64_STANDARD`,
/// on the bytes of `text`. The result depends on `text` alone.
#[verifier::external_body]
fn base64_encode(text: &str) -> (r: String)
    ensures
        r@ == base64_standard(text@),
{
    base64::Engine::encode(&base64::prelude::BASE64_STANDARD, text)
}

/// `url::Url::parse`, as `reqwest` hands it on: tells whether the parse of
/// `text` succeeds, which depends on `text` alone.
#[verifier::external_body]
fn url_parses(text: &str) -> (b: bool)
    ensures
        b == url_well_formed(text@),
{
    match reqwest::Url::parse(text) {
        Ok(_) => true,
        Err(_) => false,
    }
}

/// Builds the header value from credentials that are already encoded.
pub fn authorization_value(encoded: &str) -> (value: String)
    ensures
        value@ == basic_authorization(encoded@),
{
    String::from_str("Basic ").concat(encoded)
}

/// Which error, if any, a configuration has whose parts were judged as given.
pub open spec fn verdict(
    concurrency: usize,
    exclusion_usable: bool,
    inclusion_usable: bool,
    endpoint_well_formed: bool,
) -> Result<(), ConfigError> {
    if concurrency == 0 {
        Err(ConfigError::ZeroConcurrency)
    } else if !exclusion_usable {
        Err(ConfigError::InvalidExcludePattern)
    } else if !inclusion_usable {
        Err(ConfigError::InvalidIncludePattern)
    } else if !endpoint_well_formed {
        Err(ConfigError::MalformedUrl)
    } else {
        Ok(())
    }
}

/// Judges a configuration from what is known of its parts. The first fault
/// in the order bound, exclusion pattern, inclusion pattern, endpoint is
/// the one reported.
pub fn judge(
    concurrency: usize,
    exclusion_usable: bool,
    inclusion_usable: bool,
    endpoint_well_formed: bool,
) -> (r: Result<(), ConfigError>)
    ensures
        r == verdict(concurrency, exclusion_usable, inclusion_usable, endpoint_well_formed),
{
    if concurrency == 0 {
        Err(ConfigError::ZeroConcurrency)
    } else if !exclusion_usable {
        Err(ConfigError::InvalidExcludePattern)
    } else if !inclusion_usable {
        Err(ConfigError::InvalidIncludePattern)
    } else if !endpoint_well_formed {
        Err(ConfigError::MalformedUrl)
    } else {
        Ok(())
    }
}

fn clone_text(text: &Option<String>) -> (r: Option<String>)
    ensures
        r == *text,
{
    match text {
        Some(t) => Some(t.clone()),
        None => None,
    }
}

impl PostConfig {
    /// The glob that the scan uses: the configured one, else the glob of the
    /// extensions.
    pub open spec fn spec_glob_expression(&self) -> Seq<char> {
        match self.glob_pattern {
            Some(g) => g@,
            None => extension_glob(views(self.file_extensions@)),
        }
    }

    /// Where uploads go: the configured address, else the extract handler of
    /// the collection.
    pub open spec fn spec_update_endpoint(&self) -> Seq<char> {
        match self.update_url {
            Some(u) => u@,
            None => collection_base(self.host@, self.port, self.collection@)
                + "/update/extract"@,
        }
    }

    /// Where the commit goes: the update handler of the collection, or the
    /// configured update address, with `commit=true` as its query.
    pub open spec fn spec_commit_url(&self) -> Seq<char> {
        match self.update_url {
            Some(u) => u@ + "?commit=true"@,
            None => collection_base(self.host@, self.port, self.collection@)
                + "/update?commit=true"@,
        }
    }

    /// The `Authorization` header that every request carries, if any.
    pub open spec fn spec_authorization(&self) -> Option<Seq<char>> {
        match self.basic_auth_creds {
            Some(c) => Some(basic_authorization(base64_standard(c@))),
            None => None,
        }
    }

    /// The content rules that the configuration holds.
    pub open spec fn spec_content_filter(&self) -> ContentFilter {
        ContentFilter { exclude_pattern: self.exclued_regex, include_pattern: self.include_regex }
    }

    /// The outcome of validation.
    pub open spec fn validation(&self) -> Result<(), ConfigError> {
        verdict(
            self.concurrency,
            pattern_usable(self.exclued_regex),
            pattern_usable(self.include_regex),
            url_well_formed(self.spec_update_endpoint()),
        )
    }

    /// A configuration from the values of a command line; `file_extensions`
    /// is a list separated by commas.
    pub fn from_parts(
        collection: String,
        host: String,
        port: u16,
        url: Option<String>,
        user: Option<String>,
        directory: String,
        file_extensions: &str,
        concurrency: usize,
        exclude_regex: Option<String>,
        include_regex: Option<String>,
    ) -> (c: PostConfig)
        ensures
            c.collection == collection,
            c.host == host,
            c.port == port,
            c.update_url == url,
            c.basic_auth_creds == user,
            c.directory_path == directory,
            views(c.file_extensions@) == comma_separated(file_extensions@),
            c.glob_pattern is None,
            c.concurrency == concurrency,
            c.exclued_regex == exclude_regex,
            c.include_regex == include_regex,
    {
        PostConfig {
            concurrency,
            host,
            port,
            collection,
            directory_path: directory,
            file_extensions: split_list(file_extensions),
            glob_pattern: None,
            update_url: url,
            exclued_regex: exclude_regex,
            include_regex,
            basic_auth_creds: user,
        }
    }

    /// The glob to scan with.
    pub fn glob_expression(&self) -> (g: String)
        ensures
            g@ == self.spec_glob_expression(),
    {
        match &self.glob_pattern {
            Some(g) => g.clone(),
            None => {
                let list = join(&self.file_extensions, ",");
                let mut g = String::from_str("**/*.{");
                g.append(list.as_str());
                g.append("}");
                g
            },
        }
    }

    fn base(&self) -> (b: String)
        ensures
            b@ == collection_base(self.host@, self.port, self.collection@),
    {
        let mut b = String::from_str("http://");
        b.append(self.host.as_str());
        b.append(":");
        let port = decimal_string(self.port as u64);
        b.append(port.as_str());
        b.append("/solr/");
        b.append(self.collection.as_str());
        b
    }

    /// The address uploads are posted to.
    pub fn update_endpoint(&self) -> (e: String)
        ensures
            e@ == self.spec_update_endpoint(),
    {
        match &self.update_url {
            Some(u) => u.clone(),
            None => self.base().concat("/update/extract"),
        }
    }

    /// The address of the request that commits what was uploaded.
    pub fn commit_url(&self) -> (u: String)
        ensures
            u@ == self.spec_commit_url(),
    {
        match &self.update_url {
            Some(u) => u.clone().concat("?commit=true"),
            None => self.base().concat("/update?commit=true"),
        }
    }

    /// The value of the `Authorization` header; `None` without credentials.
    pub fn authorization(&self) -> (a: Option<String>)
        ensures
            match a {
                Some(value) => self.spec_authorization() == Some(value@),
                None => self.spec_authorization() is None,
            },
    {
        match &self.basic_auth_creds {
            Some(creds) => {
                let encoded = base64_encode(creds.as_str());
                Some(authorization_value(encoded.as_str()))
            },
            None => None,
        }
    }

    /// The content rules of this configuration.
    pub fn content_filter(&self) -> (f: ContentFilter)
        ensures
            f == self.spec_content_filter(),
    {
        ContentFilter {
            exclude_pattern: clone_text(&self.exclued_regex),
            include_pattern: clone_text(&self.include_regex),
        }
    }

    /// Checks what must hold before a scan begins.
    pub fn validate(&self) -> (r: Result<(), ConfigError>)
        ensures
            r == self.validation(),
    {
        let endpoint = self.update_endpoint();
        judge(
            self.concurrency,
            pattern_is_usable(&self.exclued_regex),
            pattern_is_usable(&self.include_regex),
            url_parses(endpoint.as_str()),
        )
    }
}

impl Default for PostConfig {
    fn default() -> (c: PostConfig)
        ensures
            c.concurrency == 8,
            c.host@ == "localhost"@,
            c.port == 8983,
            c.collection@ == "collection1"@,
            c.directory_path@ == "./"@,
            views(c.file_extensions@) == default_extensions(),
            c.glob_pattern is None,
            c.update_url is None,
            c.exclued_regex is None,
            c.include_regex is None,
            c.basic_auth_creds is None,
    {
        let mut extensions: Vec<String> = Vec::new();
        extensions.push(String::from_str("xml"));
        extensions.push(String::from_str("json"));
        extensions.push(String::from_str("jsonl"));
        extensions.push(String::from_str("csv"));
        extensions.push(String::from_str("pdf"));
        extensions.push(String::from_str("doc"));
        extensions.push(String::from_str("docx"));
        extensions.push(String::from_str("ppt"));
        extensions.push(String::from_str("pptx"));
        extensions.push(String::from_str("xls"));
        extensions.push(String::from_str("xlsx"));
        extensions.push(String::from_str("odt"));
        extensions.push(String::from_str("odp"));
        extensions.push(String::from_str("ods"));
        extensions.push(String::from_str("ott"));
        extensions.push(String::from_str("otp"));
        extensions.push(String::from_str("ots"));
        extensions.push(String::from_str("rtf"));
        extensions.push(String::from_str("htm"));
        extensions.push(String::from_str("html"));
        extensions.push(String::from_str("txt"));
        extensions.push(String::from_str("log"));
        assert(views(extensions@) =~= default_extensions());
        PostConfig {
            concurrency: 8,
            host: String::from_str("localhost"),
            port: 8983,
            collection: String::from_str("collection1"),
            directory_path: String::from_str("./"),
            file_extensions: extensions,
            glob_pattern: None,
            update_url: None,
            exclued_regex: None,
            include_regex: None,
            basic_auth_creds: None,
        }
    }
}

/// A list of extensions given as one text separated by commas appears in
/// the glob as it was given.
pub proof fn lemma_glob_of_extension_list(list: Seq<char>)
    ensures
        extension_glob(comma_separated(list)) == "**/*.{"@ + list + "}"@,
{
    lemma_join_of_split(list);
}

} // verus!
