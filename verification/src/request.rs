//! The request that carries one file to the index: where it goes, how it
//! proves who sends it, and what its multipart body holds.

use crate::filename::DistFilename;
use crate::form::{form_view, Entry};
use crate::text::{opt_str_text, opt_text};
use vstd::prelude::*;
use vstd::string::StringExecFns;
use vstd::utf8::encode_utf8;

verus! {

/// The character that stands for a value below 64 in the standard base64 alphabet.
pub open spec fn base64_digit(value: int) -> char {
    "ABCDEFGHIJKLMNOPQRSTUVWXYZabcdefghijklmnopqrstuvwxyz0123456789+/"@[value]
}

/// The standard base64 encoding of `input`, with padding: four characters
/// for every three bytes, six bits to a character, and `=` where the last
/// group runs out of bytes.
pub open spec fn base64_standard(input: Seq<u8>) -> Seq<char>
    decreases input.len(),
{
    if input.len() == 0 {
        Seq::empty()
    } else if input.len() == 1 {
        let a = input[0] as int;
        seq![base64_digit(a / 4), base64_digit(a % 4 * 16), '=', '=']
    } else if input.len() == 2 {
        let (a, b) = (input[0] as int, input[1] as int);
        seq![
            base64_digit(a / 4),
            base64_digit(a % 4 * 16 + b / 16),
            base64_digit(b % 16 * 4),
            '=',
        ]
    } else {
        let (a, b, c) = (input[0] as int, input[1] as int, input[2] as int);
        seq![
            base64_digit(a / 4),
            base64_digit(a % 4 * 16 + b / 16),
            base64_digit(b % 16 * 4 + c / 64),
            base64_digit(c % 64),
        ] + base64_standard(input.skip(3))
    }
}

/// The URL `url` after its user name has been set to `username`; `None`
/// where `url` is no URL.
pub uninterp spec fn url_with_username(url: Seq<char>, username: Seq<char>) -> Option<Seq<char>>;

/// An input short enough for its encoding, four characters for every three
/// bytes, to be allocated.
pub open spec fn encodable(input: Seq<u8>) -> bool {
    input.len() / 3 < isize::MAX / 4
}

/// A URL and a user name short enough for one URL to hold both. A URL has at
/// most `u32::MAX` bytes once it is written out, and writing it out may take
/// several bytes for one of the text: sixteen mebibytes each leave room enough.
pub open spec fn username_fits(url: Seq<char>, username: Seq<char>) -> bool {
    encode_utf8(url).len() < 0x100_0000 && encode_utf8(username).len() < 0x100_0000
}

/// Encodes with `base64::prelude::BASE64_STANDARD.encode`, the engine of the
/// standard alphabet with padding. It fails to allocate an encoding longer
/// than `isize::MAX`, which the precondition leaves out.
#[verifier::external_body]
fn base64_encode(input: &[u8]) -> (encoded: String)
    requires
        encodable(input@),
    ensures
        encoded@ == base64_standard(input@),
{
    base64::Engine::encode(&base64::prelude::BASE64_STANDARD, input)
}

/// Parses `url` with `url::Url::parse` and changes the user name with
/// `Url::set_username`, which percent-encodes it and leaves a URL that cannot
/// hold a user name as it is; `None` for a text that is no URL. The crate
/// counts the bytes of a URL in a `u32`, which the precondition provides for.
#[verifier::external_body]
fn set_username(url: &str, username: &str) -> (changed: Option<String>)
    requires
        username_fits(url@, username@),
    ensures
        opt_text(changed) == url_with_username(url@, username@),
{
    let mut parsed = url::Url::parse(url).ok()?;
    let _ = parsed.set_username(username);
    Some(parsed.into())
}

/// The text that Basic authentication encodes: user name, colon, password.
pub open spec fn basic_input(username: Seq<char>, password: Seq<char>) -> Seq<u8> {
    encode_utf8(username + ":"@ + password)
}

/// The credentials are short enough to be put into a request to `url`.
pub open spec fn credentials_fit(
    url: Seq<char>,
    username: Option<Seq<char>>,
    password: Option<Seq<char>>,
) -> bool {
    match (username, password) {
        (Some(username), Some(password)) => encodable(basic_input(username, password)),
        (Some(username), None) => username_fits(url, username),
        _ => true,
    }
}

/// The URL a request goes to. A user name that comes without a password is
/// put into the URL, where whoever sends the request can look up the password
/// that belongs to it. A text that is no URL is left as it is.
pub open spec fn request_url(
    url: Seq<char>,
    username: Option<Seq<char>>,
    password: Option<Seq<char>>,
) -> Seq<char> {
    match (username, password) {
        (Some(username), None) => match url_with_username(url, username) {
            Some(changed) => changed,
            None => url,
        },
        _ => url,
    }
}

/// The value of the `Authorization` header for a user name and a password.
pub open spec fn basic_authorization(username: Seq<char>, password: Seq<char>) -> Seq<char> {
    "Basic "@ + base64_standard(basic_input(username, password))
}

/// The headers of a request besides those of its body: which answers are
/// preferred, JSON before plain text before HTML, and, where both a user name
/// and a password are given, the Basic authorization.
pub open spec fn request_headers(
    username: Option<Seq<char>>,
    password: Option<Seq<char>>,
) -> Seq<Entry> {
    let accept = ("accept"@, "application/json;q=0.9, text/plain;q=0.8, text/html;q=0.7"@);
    match (username, password) {
        (Some(username), Some(password)) => seq![
            accept,
            ("authorization"@, basic_authorization(username, password)),
        ],
        _ => seq![accept],
    }
}

/// The index that files are uploaded to, and the credentials for it.
#[derive(Debug)]
pub struct RegistryTarget {
    url: String,
    username: Option<String>,
    password: Option<String>,
}

/// A target as plain text.
pub struct RegistryTargetView {
    pub url: Seq<char>,
    pub username: Option<Seq<char>>,
    pub password: Option<Seq<char>>,
}

impl View for RegistryTarget {
    type V = RegistryTargetView;

    closed spec fn view(&self) -> RegistryTargetView {
        RegistryTargetView {
            url: self.url@,
            username: opt_text(self.username),
            password: opt_text(self.password),
        }
    }
}

impl RegistryTarget {
    #[verifier::type_invariant]
    spec fn fits(&self) -> bool {
        credentials_fit(self.url@, opt_text(self.username), opt_text(self.password))
    }

    /// The target at `url` with these credentials; `None` where the
    /// credentials are too long for any request to hold them.
    pub fn new(url: String, username: Option<String>, password: Option<String>) -> (target: Option<
        RegistryTarget,
    >)
        ensures
            target is Some <==> credentials_fit(url@, opt_text(username), opt_text(password)),
            target matches Some(target) ==> target@ == (RegistryTargetView {
                url: url@,
                username: opt_text(username),
                password: opt_text(password),
            }),
    {
        let fit = match (&username, &password) {
            (Some(username), Some(password)) => {
                let mut input = username.clone();
                input.append(":");
                input.append(password.as_str());
                input.as_str().as_bytes().len() / 3 < isize::MAX as usize / 4
            },
            (Some(username), None) => {
                let url_len = url.as_str().as_bytes().len();
                let username_len = username.as_str().as_bytes().len();
                username_len < 0x100_0000 && url_len < 0x100_0000
            },
            _ => true,
        };
        if fit {
            Some(RegistryTarget { url, username, password })
        } else {
            None
        }
    }

    /// The URL of the index.
    pub fn url(&self) -> (url: &str)
        ensures
            url@ == self@.url,
    {
        self.url.as_str()
    }

    /// The user name to upload as, if there is one.
    pub fn username(&self) -> (username: Option<&str>)
        ensures
            opt_str_text(username) == self@.username,
    {
        match &self.username {
            Some(username) => Some(username.as_str()),
            None => None,
        }
    }

    /// The password that goes with the user name, if there is one.
    pub fn password(&self) -> (password: Option<&str>)
        ensures
            opt_str_text(password) == self@.password,
    {
        match &self.password {
            Some(password) => Some(password.as_str()),
            None => None,
        }
    }
}

/// A request to upload one file, as whoever sends it needs it: a `POST` to
/// `url` with `headers` and a multipart body that holds the entries of `form`
/// as text parts and then the file as the part `part_name`, under `file_name`.
#[derive(Clone, Debug)]
pub struct UploadRequest {
    pub url: String,
    pub headers: Vec<(&'static str, String)>,
    pub form: Vec<(&'static str, String)>,
    /// The name of the part that holds the file.
    pub part_name: &'static str,
    pub file_name: String,
    /// The id under which the reporter counts the bytes of the file.
    pub progress_id: usize,
}

/// A request as plain text.
pub struct UploadRequestView {
    pub url: Seq<char>,
    pub headers: Seq<Entry>,
    pub form: Seq<Entry>,
    pub part_name: Seq<char>,
    pub file_name: Seq<char>,
    pub progress_id: usize,
}

impl View for UploadRequest {
    type V = UploadRequestView;

    open spec fn view(&self) -> UploadRequestView {
        UploadRequestView {
            url: self.url@,
            headers: form_view(self.headers@),
            form: form_view(self.form@),
            part_name: self.part_name@,
            file_name: self.file_name@,
            progress_id: self.progress_id,
        }
    }
}

/// The request that uploads the file named `file_name` with the form `form`
/// to `target`. The file goes into the part `content`, and the reporter
/// counts its bytes under `progress_id`.
pub open spec fn request_of(
    target: RegistryTargetView,
    file_name: Seq<char>,
    form: Seq<Entry>,
    progress_id: usize,
) -> UploadRequestView {
    UploadRequestView {
        url: request_url(target.url, target.username, target.password),
        headers: request_headers(target.username, target.password),
        form,
        part_name: "content"@,
        file_name,
        progress_id,
    }
}

/// Builds the request that uploads the file to the target with this form,
/// once the reporter has handed out the id under which it counts the upload.
pub fn build_request(
    filename: &DistFilename,
    target: &RegistryTarget,
    form_metadata: Vec<(&'static str, String)>,
    progress_id: usize,
) -> (request: UploadRequest)
    ensures
        request@ == request_of(target@, filename@.text(), form_view(form_metadata@), progress_id),
{
    proof {
        use_type_invariant(target);
    }
    let url = match (&target.username, &target.password) {
        // The user name goes into the URL, where the password for it can be looked up.
        (Some(username), None) => match set_username(target.url.as_str(), username.as_str()) {
            Some(changed) => changed,
            None => target.url.clone(),
        },
        // The authorization header below carries both.
        _ => target.url.clone(),
    };
    let mut headers: Vec<(&'static str, String)> = Vec::new();
    // Structured errors are asked for before plain text, and plain text before markup.
    headers.push(
        ("accept", String::from_str("application/json;q=0.9, text/plain;q=0.8, text/html;q=0.7")),
    );
    match (&target.username, &target.password) {
        (Some(username), Some(password)) => {
            let mut input = username.clone();
            input.append(":");
            input.append(password.as_str());
            let credentials = base64_encode(input.as_str().as_bytes());
            let mut value = String::from_str("Basic ");
            value.append(credentials.as_str());
            headers.push(("authorization", value));
        },
        _ => {},
    }
    let request = UploadRequest {
        url,
        headers,
        form: form_metadata,
        part_name: "content",
        file_name: filename.to_string(),
        progress_id,
    };
    assert(request@.headers =~= request_headers(target@.username, target@.password));
    request
}

/// What the reporter is told when an upload starts: the name of the file and
/// its size.
pub fn announcement(filename: &DistFilename, size: u64) -> (told: (String, Option<u64>))
    ensures
        told.0@ == filename@.text(),
        told.1 == Some(size),
{
    (filename.to_string(), Some(size))
}

/// The standard examples of base64: the prefixes of `foobar`, through all
/// three lengths of a last group.
pub proof fn lemma_base64_examples()
    ensures
        base64_standard(seq![]) == ""@,
        base64_standard(seq![0x66u8]) == "Zg=="@,
        base64_standard(seq![0x66u8, 0x6fu8]) == "Zm8="@,
        base64_standard(seq![0x66u8, 0x6fu8, 0x6fu8]) == "Zm9v"@,
        base64_standard(seq![0x66u8, 0x6fu8, 0x6fu8, 0x62u8]) == "Zm9vYg=="@,
        base64_standard(seq![0x66u8, 0x6fu8, 0x6fu8, 0x62u8, 0x61u8]) == "Zm9vYmE="@,
        base64_standard(seq![0x66u8, 0x6fu8, 0x6fu8, 0x62u8, 0x61u8, 0x72u8]) == "Zm9vYmFy"@,
{
    reveal_strlit("ABCDEFGHIJKLMNOPQRSTUVWXYZabcdefghijklmnopqrstuvwxyz0123456789+/");
    reveal_strlit("");
    reveal_strlit("Zg==");
    reveal_strlit("Zm8=");
    reveal_strlit("Zm9v");
    reveal_strlit("Zm9vYg==");
    reveal_strlit("Zm9vYmE=");
    reveal_strlit("Zm9vYmFy");
    let foobar = seq![0x66u8, 0x6fu8, 0x6fu8, 0x62u8, 0x61u8, 0x72u8];
    assert(base64_standard(seq![]) =~= ""@);
    assert(base64_standard(seq![0x66u8]) =~= "Zg=="@);
    assert(base64_standard(seq![0x66u8, 0x6fu8]) =~= "Zm8="@);
    assert(base64_standard(seq![0x66u8, 0x6fu8, 0x6fu8].skip(3)) =~= Seq::<char>::empty());
    assert(base64_standard(seq![0x66u8, 0x6fu8, 0x6fu8]) =~= "Zm9v"@);
    assert(seq![0x66u8, 0x6fu8, 0x6fu8, 0x62u8].skip(3) =~= seq![0x62u8]);
    assert(base64_standard(seq![0x62u8]) =~= "Yg=="@) by {
        reveal_strlit("Yg==");
    }
    assert(base64_standard(seq![0x66u8, 0x6fu8, 0x6fu8, 0x62u8]) =~= "Zm9vYg=="@) by {
        reveal_strlit("Yg==");
    }
    assert(seq![0x66u8, 0x6fu8, 0x6fu8, 0x62u8, 0x61u8].skip(3) =~= seq![0x62u8, 0x61u8]);
    assert(base64_standard(seq![0x62u8, 0x61u8]) =~= "YmE="@) by {
        reveal_strlit("YmE=");
    }
    assert(base64_standard(seq![0x66u8, 0x6fu8, 0x6fu8, 0x62u8, 0x61u8]) =~= "Zm9vYmE="@) by {
        reveal_strlit("YmE=");
    }
    assert(foobar.skip(3) =~= seq![0x62u8, 0x61u8, 0x72u8]);
    assert(seq![0x62u8, 0x61u8, 0x72u8].skip(3) =~= Seq::<u8>::empty());
    assert(base64_standard(seq![0x62u8, 0x61u8, 0x72u8]) =~= "YmFy"@) by {
        reveal_strlit("YmFy");
    }
    assert(base64_standard(foobar) =~= "Zm9vYmFy"@) by {
        reveal_strlit("YmFy");
    }
}

/// The user `ferris` with the password `F3RR!S` is authorized by the header
/// value `Basic ZmVycmlzOkYzUlIhUw==`.
pub proof fn lemma_basic_authorization_example()
    ensures
        basic_authorization("ferris"@, "F3RR!S"@) == "Basic ZmVycmlzOkYzUlIhUw=="@,
{
    reveal_strlit("ABCDEFGHIJKLMNOPQRSTUVWXYZabcdefghijklmnopqrstuvwxyz0123456789+/");
    reveal_strlit("ferris");
    reveal_strlit(":");
    reveal_strlit("F3RR!S");
    reveal_strlit("Basic ");
    reveal_strlit("Basic ZmVycmlzOkYzUlIhUw==");
    let text = "ferris"@ + ":"@ + "F3RR!S"@;
    assert(vstd::utf8::is_ascii_chars(text));
    vstd::utf8::is_ascii_chars_encode_utf8(text);
    let bytes = seq![0x66u8, 0x65u8, 0x72u8, 0x72u8, 0x69u8, 0x73u8, 0x3au8, 0x46u8, 0x33u8, 0x52u8, 0x52u8, 0x21u8, 0x53u8];
    assert(basic_input("ferris"@, "F3RR!S"@) =~= bytes) by {
        assert forall|i: int| 0 <= i < bytes.len() implies encode_utf8(text)[i] == bytes[i] by {
            assert(text[i] as u8 == encode_utf8(text)[i]);
        }
    }
    assert(base64_standard(seq![0x53u8]) =~= "Uw=="@) by {
        reveal_strlit("Uw==");
    }
    assert(seq![0x52u8, 0x52u8, 0x21u8, 0x53u8].skip(3) =~= seq![0x53u8]);
    assert(base64_standard(seq![0x52u8, 0x52u8, 0x21u8, 0x53u8]) =~= "UlIhUw=="@) by {
        reveal_strlit("UlIhUw==");
        reveal_strlit("Uw==");
    }
    assert(seq![0x3au8, 0x46u8, 0x33u8, 0x52u8, 0x52u8, 0x21u8, 0x53u8].skip(3) =~= seq![0x52u8, 0x52u8, 0x21u8, 0x53u8]);
    assert(base64_standard(seq![0x3au8, 0x46u8, 0x33u8, 0x52u8, 0x52u8, 0x21u8, 0x53u8]) =~= "OkYzUlIhUw=="@) by {
        reveal_strlit("OkYzUlIhUw==");
        reveal_strlit("UlIhUw==");
    }
    assert(seq![0x72u8, 0x69u8, 0x73u8, 0x3au8, 0x46u8, 0x33u8, 0x52u8, 0x52u8, 0x21u8, 0x53u8].skip(3) =~= seq![0x3au8, 0x46u8, 0x33u8, 0x52u8, 0x52u8, 0x21u8, 0x53u8]);
    assert(base64_standard(seq![0x72u8, 0x69u8, 0x73u8, 0x3au8, 0x46u8, 0x33u8, 0x52u8, 0x52u8, 0x21u8, 0x53u8]) =~= "cmlzOkYzUlIhUw=="@) by {
        reveal_strlit("cmlzOkYzUlIhUw==");
        reveal_strlit("OkYzUlIhUw==");
    }
    assert(seq![0x66u8, 0x65u8, 0x72u8, 0x72u8, 0x69u8, 0x73u8, 0x3au8, 0x46u8, 0x33u8, 0x52u8, 0x52u8, 0x21u8, 0x53u8].skip(3) =~= seq![0x72u8, 0x69u8, 0x73u8, 0x3au8, 0x46u8, 0x33u8, 0x52u8, 0x52u8, 0x21u8, 0x53u8]);
    assert(base64_standard(seq![0x66u8, 0x65u8, 0x72u8, 0x72u8, 0x69u8, 0x73u8, 0x3au8, 0x46u8, 0x33u8, 0x52u8, 0x52u8, 0x21u8, 0x53u8]) =~= "ZmVycmlzOkYzUlIhUw=="@) by {
        reveal_strlit("ZmVycmlzOkYzUlIhUw==");
        reveal_strlit("cmlzOkYzUlIhUw==");
    }
    assert("Basic "@ + "ZmVycmlzOkYzUlIhUw=="@ =~= "Basic ZmVycmlzOkYzUlIhUw=="@) by {
        reveal_strlit("ZmVycmlzOkYzUlIhUw==");
    }
}

} // verus!
