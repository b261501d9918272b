//! Request and response shapes of the web layer, and database connection
//! settings.
use vstd::prelude::*;
use crate::text::{decimal, to_decimal};

verus! {

pub const CODE_SUCCESS: i8 = 0;

pub const CODE_FAILURE: i8 = -1;

/// The uniform response body: a code, a message and a payload.
#[derive(Debug)]
pub struct RespBody<T> {
    pub code: Option<i8>,
    pub msg: Option<String>,
    pub data: Option<T>,
}

impl<T: Clone> RespBody<T> {
    /// Success with a copy of the value, or failure with the error's message.
    pub fn result(arg: &Result<T, String>) -> (r: Self)
        ensures
            match arg {
                Ok(v) => r.code == Some(CODE_SUCCESS) && r.msg is None && (r.data matches Some(d)
                    && cloned(*v, d)),
                Err(e) => r.code == Some(CODE_FAILURE) && r.msg == Some(*e) && r.data is None,
            },
    {
        match arg {
            Ok(v) => Self::success(v),
            Err(e) => Self { code: Some(CODE_FAILURE), msg: Some(e.clone()), data: None },
        }
    }

    /// Failure with `message`.
    pub fn error(message: &str) -> (r: Self)
        ensures
            r.code == Some(CODE_FAILURE),
            r.msg matches Some(m) && m@ == message@,
            r.data is None,
    {
        Self { code: Some(CODE_FAILURE), msg: Some(String::from_str(message)), data: None }
    }

    /// Success with a copy of `arg`.
    pub fn success(arg: &T) -> (r: Self)
        ensures
            r.code == Some(CODE_SUCCESS),
            r.msg is None,
            r.data matches Some(d) && cloned(*arg, d),
    {
        Self { code: Some(CODE_SUCCESS), msg: None, data: Some(arg.clone()) }
    }

    /// `code` with `info` and no payload.
    pub fn code_info(code: i8, info: &str) -> (r: Self)
        ensures
            r.code == Some(code),
            r.msg matches Some(m) && m@ == info@,
            r.data is None,
    {
        Self { code: Some(code), msg: Some(String::from_str(info)), data: None }
    }

    pub fn fail_info(info: &str) -> (r: Self)
        ensures
            r.code == Some(CODE_FAILURE),
            r.msg matches Some(m) && m@ == info@,
            r.data is None,
    {
        Self::code_info(CODE_FAILURE, info)
    }

    pub fn success_info(info: &str) -> (r: Self)
        ensures
            r.code == Some(CODE_SUCCESS),
            r.msg matches Some(m) && m@ == info@,
            r.data is None,
    {
        Self::code_info(CODE_SUCCESS, info)
    }
}

/// A sort order on one column.
#[derive(Debug)]
pub struct Sort {
    pub column: String,
    pub order: String,
}

/// A page request.
#[derive(Debug)]
pub struct Pagination {
    pub page_no: u64,
    pub page_size: u64,
    pub sorts: Option<Vec<Sort>>,
}

/// A value to be rendered as an HTML page.
pub struct HtmlTemplate<T>(pub T);

/// Database connection settings.
pub struct DbConnection {
    pub host: String,
    pub port: u16,
    pub user: String,
    pub password: String,
    pub name: String,
    pub kind: String,
    pub args: Option<String>,
}

/// `{kind}://{user}:{password}@{host}:{port}/{name}`, then `?{args}` when
/// there are arguments.
pub open spec fn db_url(c: DbConnection) -> Seq<char> {
    let base = c.kind@ + ("://")@ + c.user@ + (":")@ + c.password@ + ("@")@ + c.host@ + (":")@
        + decimal(c.port as nat) + ("/")@ + c.name@;
    match c.args {
        Some(a) => base + ("?")@ + a@,
        None => base,
    }
}

impl DbConnection {
    /// The connection URL.
    pub fn to_url(&self) -> (r: String)
        ensures
            r@ == db_url(*self),
    {
        let mut u = self.kind.clone();
        u.append("://");
        u.append(self.user.as_str());
        u.append(":");
        u.append(self.password.as_str());
        u.append("@");
        u.append(self.host.as_str());
        u.append(":");
        let port = to_decimal(self.port as u64);
        u.append(port.as_str());
        u.append("/");
        u.append(self.name.as_str());
        match &self.args {
            Some(a) => {
                u.append("?");
                u.append(a.as_str());
            },
            None => {},
        }
        u
    }
}

} // verus!
