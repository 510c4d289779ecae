//! Connection parameters and query sources, read from the flags of a call.

use vstd::prelude::*;
use crate::DEFAULT_BUFFER_SIZE;

verus! {

/// A range of the caller's command text, for error labels.
#[derive(Clone, Copy, Debug, PartialEq, Eq, Structural)]
pub struct Span {
    pub start: usize,
    pub end: usize,
}

/// A piece of text with the span it was written at.
#[derive(Clone, Debug, PartialEq)]
pub struct Spanned {
    pub item: String,
    pub span: Span,
}

/// The value given to a named flag.
#[derive(Clone, Debug, PartialEq)]
pub enum ArgValue {
    Text(String, Span),
    Int(i64, Span),
    Bool(bool, Span),
}

impl ArgValue {
    /// Where the value was written.
    pub fn span(&self) -> (r: Span)
        ensures
            r == self.span_of(),
    {
        match self {
            ArgValue::Text(_, s) => *s,
            ArgValue::Int(_, s) => *s,
            ArgValue::Bool(_, s) => *s,
        }
    }

    /// Where the value was written.
    pub open spec fn span_of(self) -> Span {
        match self {
            ArgValue::Text(_, s) => s,
            ArgValue::Int(_, s) => s,
            ArgValue::Bool(_, s) => s,
        }
    }
}

/// Why the flags of a call could not be read.
#[derive(Clone, Copy, Debug, PartialEq, Eq, Structural)]
pub enum ArgError {
    /// A flag that names text was given something else.
    NotText(Span),
    /// The row buffer size was not a positive integer.
    InvalidBufferSize(Span),
    /// Neither a query nor a query file was given.
    NoQuery,
    /// Both a query and a query file were given; the span is the file's.
    QueryAndFile(Span),
}

/// Named flags as the shell hands them over, in the order written.
pub type NamedFlags = Vec<(String, Option<ArgValue>)>;

/// The parameters of one connection target.
#[derive(Clone, Debug, PartialEq)]
pub struct ConnectionArgs {
    pub server: Option<Spanned>,
    pub instance: Option<Spanned>,
    pub database: Option<Spanned>,
    pub user: Option<Spanned>,
    pub password: Option<Spanned>,
    pub trust_cert: Option<Span>,
    pub buffer_size: usize,
}

/// A flag value read as text, or the error for one that is not text.
pub open spec fn text_flag(v: ArgValue) -> Result<Spanned, ArgError> {
    match v {
        ArgValue::Text(s, sp) => Ok(Spanned { item: s, span: sp }),
        _ => Err(ArgError::NotText(v.span_of())),
    }
}

/// The effect of one flag on the parameters read so far.
pub open spec fn apply_flag(a: ConnectionArgs, name: Seq<char>, v: ArgValue) -> Result<
    ConnectionArgs,
    ArgError,
> {
    if name == "server"@ || name == "instance"@ || name == "database"@ || name == "user"@
        || name == "password"@ {
        match text_flag(v) {
            Err(e) => Err(e),
            Ok(t) => Ok(
                if name == "server"@ {
                    ConnectionArgs { server: Some(t), ..a }
                } else if name == "instance"@ {
                    ConnectionArgs { instance: Some(t), ..a }
                } else if name == "database"@ {
                    ConnectionArgs { database: Some(t), ..a }
                } else if name == "user"@ {
                    ConnectionArgs { user: Some(t), ..a }
                } else {
                    ConnectionArgs { password: Some(t), ..a }
                },
            ),
        }
    } else if name == "row-buffer"@ {
        match v {
            ArgValue::Int(n, sp) => if 1 <= n <= usize::MAX {
                Ok(ConnectionArgs { buffer_size: n as usize, ..a })
            } else {
                Err(ArgError::InvalidBufferSize(sp))
            },
            _ => Err(ArgError::InvalidBufferSize(v.span_of())),
        }
    } else {
        Ok(a)
    }
}

/// The parameters that the flags `named` give, read left to right: a later
/// flag overrides an earlier one, flags without a value and unknown flags are
/// ignored, and the first malformed one is the error.
pub open spec fn args_from_flags(
    named: Seq<(String, Option<ArgValue>)>,
    trust_cert: Option<Span>,
) -> Result<ConnectionArgs, ArgError>
    decreases named.len(),
{
    if named.len() == 0 {
        Ok(
            ConnectionArgs {
                server: None,
                instance: None,
                database: None,
                user: None,
                password: None,
                trust_cert: trust_cert,
                buffer_size: DEFAULT_BUFFER_SIZE,
            },
        )
    } else {
        match args_from_flags(named.drop_last(), trust_cert) {
            Err(e) => Err(e),
            Ok(a) => match named.last().1 {
                None => Ok(a),
                Some(v) => apply_flag(a, named.last().0@, v),
            },
        }
    }
}

/// Whether `s` reads as the literal `lit`.
pub fn text_is(s: &String, lit: &str) -> (r: bool)
    ensures
        r == (s@ == lit@),
{
    let l = lit.to_owned();
    *s == l
}

fn read_text(v: &ArgValue) -> (r: Result<Spanned, ArgError>)
    ensures
        r == text_flag(*v),
{
    match v {
        ArgValue::Text(s, sp) => Ok(Spanned { item: s.clone(), span: *sp }),
        ArgValue::Int(_, sp) => Err(ArgError::NotText(*sp)),
        ArgValue::Bool(_, sp) => Err(ArgError::NotText(*sp)),
    }
}

fn apply_flag_exec(a: ConnectionArgs, name: &String, v: &ArgValue) -> (r: Result<
    ConnectionArgs,
    ArgError,
>)
    ensures
        r == apply_flag(a, name@, *v),
{
    let mut a = a;
    if text_is(name, "server") {
        a.server = Some(read_text(v)?);
    } else if text_is(name, "instance") {
        a.instance = Some(read_text(v)?);
    } else if text_is(name, "database") {
        a.database = Some(read_text(v)?);
    } else if text_is(name, "user") {
        a.user = Some(read_text(v)?);
    } else if text_is(name, "password") {
        a.password = Some(read_text(v)?);
    } else if text_is(name, "row-buffer") {
        match v {
            ArgValue::Int(n, sp) => {
                if 1 <= *n && *n as u64 <= usize::MAX as u64 {
                    a.buffer_size = *n as usize;
                } else {
                    return Err(ArgError::InvalidBufferSize(*sp));
                }
            },
            ArgValue::Text(_, sp) => return Err(ArgError::InvalidBufferSize(*sp)),
            ArgValue::Bool(_, sp) => return Err(ArgError::InvalidBufferSize(*sp)),
        }
    }
    Ok(a)
}

impl ConnectionArgs {
    /// Reads the connection parameters from the named flags of a call;
    /// `trust_cert` is where the trust-certificate switch was given, if it was.
    pub fn from_call(named: &NamedFlags, trust_cert: Option<Span>) -> (r: Result<
        ConnectionArgs,
        ArgError,
    >)
        ensures
            r == args_from_flags(named@, trust_cert),
    {
        let mut a = ConnectionArgs {
            server: None,
            instance: None,
            database: None,
            user: None,
            password: None,
            trust_cert: trust_cert,
            buffer_size: DEFAULT_BUFFER_SIZE,
        };
        let mut i: usize = 0;
        while i < named.len()
            invariant
                0 <= i <= named.len(),
                args_from_flags(named@.subrange(0, i as int), trust_cert) == Ok::<
                    ConnectionArgs,
                    ArgError,
                >(a),
            decreases named.len() - i,
        {
            proof {
                assert(named@.subrange(0, i + 1).drop_last() =~= named@.subrange(0, i as int));
            }
            match &named[i].1 {
                None => {},
                Some(v) => {
                    match apply_flag_exec(a, &named[i].0, v) {
                        Ok(b) => {
                            a = b;
                        },
                        Err(e) => {
                            proof {
                                lemma_flags_error_stays(named@, trust_cert, i as int + 1);
                            }
                            return Err(e);
                        },
                    }
                },
            }
            i = i + 1;
        }
        proof {
            assert(named@.subrange(0, named@.len() as int) =~= named@);
        }
        Ok(a)
    }
}

/// Once a prefix of the flags is malformed, so are all longer prefixes.
proof fn lemma_flags_error_stays(
    named: Seq<(String, Option<ArgValue>)>,
    trust_cert: Option<Span>,
    k: int,
)
    requires
        0 <= k <= named.len(),
        args_from_flags(named.subrange(0, k), trust_cert) is Err,
    ensures
        args_from_flags(named, trust_cert) == args_from_flags(named.subrange(0, k), trust_cert),
    decreases named.len() - k,
{
    if k < named.len() {
        assert(named.subrange(0, k + 1).drop_last() =~= named.subrange(0, k));
        lemma_flags_error_stays(named, trust_cert, k + 1);
    } else {
        assert(named.subrange(0, k) =~= named);
    }
}

/// Where the text of a query comes from.
#[derive(Clone, Debug, PartialEq)]
pub enum QuerySource {
    Query(String, Span),
    File(String, Span),
}

/// The value of the first flag called `name` that carries one.
pub open spec fn first_flag(named: Seq<(String, Option<ArgValue>)>, name: Seq<char>) -> Option<
    ArgValue,
>
    decreases named.len(),
{
    if named.len() == 0 {
        None
    } else if named[0].0@ == name && named[0].1 is Some {
        named[0].1
    } else {
        first_flag(named.drop_first(), name)
    }
}

/// The query source that the flags `named` give. A query and a query file
/// exclude each other, and one of them is required; where a flag is given
/// more than once, its first value counts.
pub open spec fn source_from_flags(named: Seq<(String, Option<ArgValue>)>) -> Result<
    QuerySource,
    ArgError,
> {
    match (first_flag(named, "query"@), first_flag(named, "file"@)) {
        (Some(_), Some(f)) => Err(ArgError::QueryAndFile(f.span_of())),
        (Some(q), None) => match text_flag(q) {
            Err(e) => Err(e),
            Ok(t) => Ok(QuerySource::Query(t.item, t.span)),
        },
        (None, Some(f)) => match text_flag(f) {
            Err(e) => Err(e),
            Ok(t) => Ok(QuerySource::File(t.item, t.span)),
        },
        (None, None) => Err(ArgError::NoQuery),
    }
}

fn find_flag<'a>(named: &'a NamedFlags, name: &str) -> (r: Option<&'a ArgValue>)
    ensures
        match r {
            Some(v) => first_flag(named@, name@) == Some(*v),
            None => first_flag(named@, name@) is None,
        },
{
    let mut i: usize = 0;
    proof {
        assert(named@.subrange(0, named@.len() as int) =~= named@);
    }
    while i < named.len()
        invariant
            0 <= i <= named.len(),
            first_flag(named@, name@) == first_flag(
                named@.subrange(i as int, named@.len() as int),
                name@,
            ),
        decreases named.len() - i,
    {
        proof {
            assert(named@.subrange(i as int, named@.len() as int).drop_first()
                =~= named@.subrange(i + 1, named@.len() as int));
            assert(named@.subrange(i as int, named@.len() as int)[0] == named@[i as int]);
        }
        if text_is(&named[i].0, name) {
            if let Some(v) = &named[i].1 {
                return Some(v);
            }
        }
        i = i + 1;
    }
    None
}

impl QuerySource {
    /// Reads the query source from the named flags of a call.
    pub fn from_call(named: &NamedFlags) -> (r: Result<QuerySource, ArgError>)
        ensures
            r == source_from_flags(named@),
    {
        match (find_flag(named, "query"), find_flag(named, "file")) {
            (Some(_), Some(f)) => Err(ArgError::QueryAndFile(f.span())),
            (Some(q), None) => {
                let t = read_text(q)?;
                Ok(QuerySource::Query(t.item, t.span))
            },
            (None, Some(f)) => {
                let t = read_text(f)?;
                Ok(QuerySource::File(t.item, t.span))
            },
            (None, None) => Err(ArgError::NoQuery),
        }
    }
}

impl ArgError {
    /// The text that reports this error.
    pub fn message(&self) -> (r: &'static str)
        ensures
            r@ == arg_error_text(*self),
    {
        match self {
            ArgError::NotText(_) => "Expected text for this flag",
            ArgError::InvalidBufferSize(_) => "The row buffer size must be a positive integer",
            ArgError::NoQuery => "No query specified",
            ArgError::QueryAndFile(_) => "Give either a query or a query file, not both",
        }
    }
}

/// The message that reports a flag error.
pub open spec fn arg_error_text(e: ArgError) -> Seq<char> {
    match e {
        ArgError::NotText(_) => "Expected text for this flag"@,
        ArgError::InvalidBufferSize(_) => "The row buffer size must be a positive integer"@,
        ArgError::NoQuery => "No query specified"@,
        ArgError::QueryAndFile(_) => "Give either a query or a query file, not both"@,
    }
}

} // verus!
