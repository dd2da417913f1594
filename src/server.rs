use vstd::prelude::*;
use vstd::string::*;
use crate::error::{decimal, decimal_text};

verus! {

/// Where the HTTP server listens.
#[derive(Debug)]
pub struct Server {
    host: String,
    port: u16,
}

impl Server {
    pub fn new(host: String, port: u16) -> (r: Server)
        ensures
            r.host()@ == host@,
            r.port() == port,
    {
        Server { host, port }
    }

    pub closed spec fn host(&self) -> String {
        self.host
    }

    pub closed spec fn port(&self) -> u16 {
        self.port
    }

    pub fn host_name(&self) -> (r: &String)
        ensures
            r@ == self.host()@,
    {
        &self.host
    }

    pub fn port_number(&self) -> (r: u16)
        ensures
            r == self.port(),
    {
        self.port
    }
}

/// Failures to start the server.
#[derive(Debug)]
pub enum ServerError {
    InvalidPort(u16),
}

impl ServerError {
    pub fn message(&self) -> (r: String)
        ensures
            r@ == match *self {
                ServerError::InvalidPort(p) => "invalid port: "@ + decimal_text(p as nat),
            },
    {
        match self {
            ServerError::InvalidPort(p) => {
                let digits = decimal(*p as u32);
                String::from_str("invalid port: ").concat(digits.as_str())
            },
        }
    }
}

/// Failures of the HTTP endpoints.
#[derive(Debug)]
pub enum AppError {
    Io(String),
    InvalidParam(String),
    Unauthorized,
    NotFound(String),
    Unknown(String),
}

/// The HTTP status that answers an error.
pub open spec fn app_error_status(e: AppError) -> u16 {
    match e {
        AppError::Io(_) => 500,
        AppError::InvalidParam(_) => 400,
        AppError::Unauthorized => 401,
        AppError::NotFound(_) => 404,
        AppError::Unknown(_) => 500,
    }
}

/// The text that an endpoint error reads as.
pub open spec fn app_error_text(e: AppError) -> Seq<char> {
    match e {
        AppError::Io(s) => "io error: "@ + s@,
        AppError::InvalidParam(s) => "invalid parameter: "@ + s@,
        AppError::Unauthorized => "unauthorized"@,
        AppError::NotFound(s) => "not found: "@ + s@,
        AppError::Unknown(s) => "unknown error: "@ + s@,
    }
}

impl AppError {
    pub fn status_code(&self) -> (r: u16)
        ensures
            r == app_error_status(*self),
    {
        match self {
            AppError::Io(_) => 500,
            AppError::InvalidParam(_) => 400,
            AppError::Unauthorized => 401,
            AppError::NotFound(_) => 404,
            AppError::Unknown(_) => 500,
        }
    }

    pub fn message(&self) -> (r: String)
        ensures
            r@ == app_error_text(*self),
    {
        match self {
            AppError::Io(s) => String::from_str("io error: ").concat(s.as_str()),
            AppError::InvalidParam(s) => String::from_str("invalid parameter: ").concat(s.as_str()),
            AppError::Unauthorized => String::from_str("unauthorized"),
            AppError::NotFound(s) => String::from_str("not found: ").concat(s.as_str()),
            AppError::Unknown(s) => String::from_str("unknown error: ").concat(s.as_str()),
        }
    }
}

/// The body of every endpoint's answer: optional data, a message, and a code
/// where 0 means success.
#[derive(Debug)]
pub struct Response<T> {
    pub data: Option<T>,
    pub msg: String,
    pub code: u16,
}

/// The HTTP status for a response code: 0 is 200, 404 is 404, anything else
/// is 500.
pub open spec fn response_status(code: u16) -> u16 {
    if code == 0 {
        200
    } else if code == 404 {
        404
    } else {
        500
    }
}

impl<T> Response<T> {
    pub fn new(data: Option<T>, msg: String, code: u16) -> (r: Response<T>)
        ensures
            r.data == data,
            r.msg == msg,
            r.code == code,
    {
        Response { data, msg, code }
    }

    pub fn http_status(&self) -> (r: u16)
        ensures
            r == response_status(self.code),
    {
        if self.code == 0 {
            200
        } else if self.code == 404 {
            404
        } else {
            500
        }
    }
}

/// One entry of a directory listing.
#[derive(Debug, Clone)]
pub struct FileInfo {
    pub name: String,
    pub size: u64,
    pub is_dir: bool,
    pub created_at: u64,
    pub modified_at: u64,
}

impl FileInfo {
    /// An entry whose size counts only for regular files; directories and
    /// other entries list as size 0.
    pub fn new(name: String, is_file: bool, len: u64, is_dir: bool, created_at: u64, modified_at: u64) -> (r: FileInfo)
        ensures
            r.name == name,
            r.size == (if is_file { len } else { 0 }),
            r.is_dir == is_dir,
            r.created_at == created_at,
            r.modified_at == modified_at,
    {
        FileInfo { name, size: if is_file { len } else { 0 }, is_dir, created_at, modified_at }
    }
}

/// The media type served for an image with extension `ext`.
pub fn image_content_type(ext: &str) -> (r: String)
    ensures
        r@ == "image/"@ + ext@,
{
    String::from_str("image/").concat(ext)
}

/// The extensions, in lower case, that count as images.
pub open spec fn is_image_ext(e: Seq<char>) -> bool {
    e == "png"@ || e == "jpg"@ || e == "jpeg"@ || e == "gif"@ || e == "bmp"@
}

/// Whether a lower-case extension names an image.
pub fn is_image_extension(ext: &str) -> (r: bool)
    ensures
        r == is_image_ext(ext@),
{
    let e = String::from_str(ext);
    e == String::from_str("png") || e == String::from_str("jpg") || e == String::from_str("jpeg")
        || e == String::from_str("gif") || e == String::from_str("bmp")
}

/// What follows the last `.` of `s`; all of `s` when it has none.
pub open spec fn after_last_dot(s: Seq<char>) -> Seq<char>
    decreases s.len(),
{
    if s.len() == 0 {
        s
    } else if s.last() == '.' {
        Seq::<char>::empty()
    } else {
        after_last_dot(s.drop_last()).push(s.last())
    }
}

/// What follows the last `.` of `name`; all of `name` when it has none.
pub fn last_segment(name: &str) -> (r: &str)
    ensures
        r@ == after_last_dot(name@),
{
    let n = name.unicode_len();
    let mut i: usize = n;
    assert(name@.subrange(0, n as int) =~= name@);
    assert(after_last_dot(name@) + name@.subrange(n as int, n as int) =~= after_last_dot(name@));
    while i > 0 && name.get_char(i - 1) != '.'
        invariant
            n == name@.len(),
            i <= n,
            after_last_dot(name@) == after_last_dot(name@.subrange(0, i as int)) + name@.subrange(i as int, n as int),
        decreases i,
    {
        let ghost pre = name@.subrange(0, i as int);
        assert(pre.drop_last() =~= name@.subrange(0, i - 1));
        assert(after_last_dot(pre) == after_last_dot(pre.drop_last()).push(pre.last()));
        assert(after_last_dot(pre) + name@.subrange(i as int, n as int) =~= after_last_dot(name@.subrange(0, i - 1)) + name@.subrange(i - 1, n as int));
        i = i - 1;
    }
    proof {
        let pre = name@.subrange(0, i as int);
        if i == 0 {
            assert(pre.len() == 0);
        } else {
            assert(pre.last() == '.');
        }
        assert(after_last_dot(pre) =~= Seq::<char>::empty());
        assert(Seq::<char>::empty() + name@.subrange(i as int, n as int) =~= name@.subrange(i as int, n as int));
    }
    name.substring_char(i, n)
}

/// A character with an ASCII capital letter replaced by its small letter;
/// every other character stays as it is.
pub open spec fn ascii_lower(c: char) -> char {
    match c {
        'A' => 'a',
        'B' => 'b',
        'C' => 'c',
        'D' => 'd',
        'E' => 'e',
        'F' => 'f',
        'G' => 'g',
        'H' => 'h',
        'I' => 'i',
        'J' => 'j',
        'K' => 'k',
        'L' => 'l',
        'M' => 'm',
        'N' => 'n',
        'O' => 'o',
        'P' => 'p',
        'Q' => 'q',
        'R' => 'r',
        'S' => 's',
        'T' => 't',
        'U' => 'u',
        'V' => 'v',
        'W' => 'w',
        'X' => 'x',
        'Y' => 'y',
        'Z' => 'z',
        _ => c,
    }
}

/// The small letter for an ASCII capital, as text.
fn small_letter(c: char) -> (r: Option<&'static str>)
    ensures
        r is Some <==> ascii_lower(c) != c,
        r is Some ==> r->Some_0@ == seq![ascii_lower(c)],
{
    match c {
        'A' => {
            proof {
                reveal_strlit("a");
            }
            Some("a")
        },
        'B' => {
            proof {
                reveal_strlit("b");
            }
            Some("b")
        },
        'C' => {
            proof {
                reveal_strlit("c");
            }
            Some("c")
        },
        'D' => {
            proof {
                reveal_strlit("d");
            }
            Some("d")
        },
        'E' => {
            proof {
                reveal_strlit("e");
            }
            Some("e")
        },
        'F' => {
            proof {
                reveal_strlit("f");
            }
            Some("f")
        },
        'G' => {
            proof {
                reveal_strlit("g");
            }
            Some("g")
        },
        'H' => {
            proof {
                reveal_strlit("h");
            }
            Some("h")
        },
        'I' => {
            proof {
                reveal_strlit("i");
            }
            Some("i")
        },
        'J' => {
            proof {
                reveal_strlit("j");
            }
            Some("j")
        },
        'K' => {
            proof {
                reveal_strlit("k");
            }
            Some("k")
        },
        'L' => {
            proof {
                reveal_strlit("l");
            }
            Some("l")
        },
        'M' => {
            proof {
                reveal_strlit("m");
            }
            Some("m")
        },
        'N' => {
            proof {
                reveal_strlit("n");
            }
            Some("n")
        },
        'O' => {
            proof {
                reveal_strlit("o");
            }
            Some("o")
        },
        'P' => {
            proof {
                reveal_strlit("p");
            }
            Some("p")
        },
        'Q' => {
            proof {
                reveal_strlit("q");
            }
            Some("q")
        },
        'R' => {
            proof {
                reveal_strlit("r");
            }
            Some("r")
        },
        'S' => {
            proof {
                reveal_strlit("s");
            }
            Some("s")
        },
        'T' => {
            proof {
                reveal_strlit("t");
            }
            Some("t")
        },
        'U' => {
            proof {
                reveal_strlit("u");
            }
            Some("u")
        },
        'V' => {
            proof {
                reveal_strlit("v");
            }
            Some("v")
        },
        'W' => {
            proof {
                reveal_strlit("w");
            }
            Some("w")
        },
        'X' => {
            proof {
                reveal_strlit("x");
            }
            Some("x")
        },
        'Y' => {
            proof {
                reveal_strlit("y");
            }
            Some("y")
        },
        'Z' => {
            proof {
                reveal_strlit("z");
            }
            Some("z")
        },
        _ => None,
    }
}

/// `s` with every ASCII capital letter replaced by its small letter.
pub fn to_ascii_lower(s: &str) -> (r: String)
    ensures
        r@ == s@.map_values(|c: char| ascii_lower(c)),
{
    let n = s.unicode_len();
    let mut out = String::new();
    let mut i: usize = 0;
    while i < n
        invariant
            n == s@.len(),
            i <= n,
            out@ == s@.subrange(0, i as int).map_values(|c: char| ascii_lower(c)),
        decreases n - i,
    {
        let c = s.get_char(i);
        match small_letter(c) {
            Some(small) => out.append(small),
            None => out.append(s.substring_char(i, i + 1)),
        }
        assert(s@.subrange(0, i + 1).map_values(|c: char| ascii_lower(c)) =~= s@.subrange(0, i as int).map_values(
            |c: char| ascii_lower(c),
        ).push(ascii_lower(c)));
        i = i + 1;
    }
    assert(s@.subrange(0, n as int) =~= s@);
    out
}

/// Accepts an already lower-cased extension if it names an image.
pub fn check_image_extension(ext: String) -> (r: Result<String, AppError>)
    ensures
        r is Ok <==> is_image_ext(ext@),
        r is Ok ==> r->Ok_0@ == ext@,
        r is Err ==> r->Err_0 is InvalidParam && r->Err_0->InvalidParam_0@ == "Unsupported file type: "@ + ext@,
{
    if is_image_extension(ext.as_str()) {
        Ok(ext)
    } else {
        Err(AppError::InvalidParam(String::from_str("Unsupported file type: ").concat(ext.as_str())))
    }
}

/// The lower-cased extension of an uploaded file's name, if it names an image.
pub fn upload_extension(file_name: &str) -> (r: Result<String, AppError>)
    ensures
        r is Ok <==> is_image_ext(after_last_dot(file_name@).map_values(|c: char| ascii_lower(c))),
        r is Ok ==> r->Ok_0@ == after_last_dot(file_name@).map_values(|c: char| ascii_lower(c)),
        r is Err ==> r->Err_0 is InvalidParam && r->Err_0->InvalidParam_0@ == "Unsupported file type: "@
            + after_last_dot(file_name@).map_values(|c: char| ascii_lower(c)),
{
    let ext = to_ascii_lower(last_segment(file_name));
    check_image_extension(ext)
}

} // verus!
