//! The SmartREST codec: parses cloud-inbound comma-separated frames and
//! serializes the cloud-outbound ones.
//!
//! Inbound frames follow the platform's CSV dialect: a field that holds a
//! literal comma or quote is wrapped in double quotes, and a quote inside a
//! quoted field is doubled.

use vstd::prelude::*;
use vstd::string::*;

use crate::error::MapperError;
use crate::text::chars_to_string;
use crate::text::join_seq;
use crate::text::join_strings;
use crate::text::str_eq;

verus! {

// ---------------------------------------------------------------------------
// Inbound: CSV record grammar
// ---------------------------------------------------------------------------
/// An unquoted field: everything up to the next comma; quotes may not appear.
/// Returns the field and the rest, which is empty or begins with a comma.
pub open spec fn take_raw_field(s: Seq<char>) -> Option<(Seq<char>, Seq<char>)>
    decreases s.len(),
{
    if s.len() == 0 {
        Some((Seq::<char>::empty(), Seq::<char>::empty()))
    } else if s[0] == ',' {
        Some((Seq::<char>::empty(), s))
    } else if s[0] == '"' {
        None
    } else {
        match take_raw_field(s.skip(1)) {
            None => None,
            Some(p) => Some((seq![s[0]] + p.0, p.1)),
        }
    }
}

/// The body of a quoted field, after its opening quote: a doubled quote is a
/// literal quote, a single quote closes the field.
pub open spec fn take_quoted_body(s: Seq<char>) -> Option<(Seq<char>, Seq<char>)>
    decreases s.len(),
{
    if s.len() == 0 {
        None
    } else if s[0] == '"' {
        if s.len() >= 2 && s[1] == '"' {
            match take_quoted_body(s.skip(2)) {
                None => None,
                Some(p) => Some((seq!['"'] + p.0, p.1)),
            }
        } else {
            Some((Seq::<char>::empty(), s.skip(1)))
        }
    } else {
        match take_quoted_body(s.skip(1)) {
            None => None,
            Some(p) => Some((seq![s[0]] + p.0, p.1)),
        }
    }
}

/// One field, quoted or raw; the rest is empty or begins with a comma.
pub open spec fn take_field(s: Seq<char>) -> Option<(Seq<char>, Seq<char>)> {
    if s.len() > 0 && s[0] == '"' {
        match take_quoted_body(s.skip(1)) {
            None => None,
            Some(p) => if p.1.len() == 0 || p.1[0] == ',' {
                Some(p)
            } else {
                None
            },
        }
    } else {
        take_raw_field(s)
    }
}

proof fn lemma_take_raw_field_rest(s: Seq<char>)
    ensures
        take_raw_field(s) matches Some(p) ==> p.1.len() <= s.len(),
    decreases s.len(),
{
    if s.len() > 0 && s[0] != ',' && s[0] != '"' {
        lemma_take_raw_field_rest(s.skip(1));
    }
}

proof fn lemma_take_quoted_body_rest(s: Seq<char>)
    ensures
        take_quoted_body(s) matches Some(p) ==> p.1.len() < s.len(),
    decreases s.len(),
{
    if s.len() > 0 {
        if s[0] == '"' {
            if s.len() >= 2 && s[1] == '"' {
                lemma_take_quoted_body_rest(s.skip(2));
            }
        } else {
            lemma_take_quoted_body_rest(s.skip(1));
        }
    }
}

proof fn lemma_take_field_rest(s: Seq<char>)
    ensures
        take_field(s) matches Some(p) ==> p.1.len() <= s.len(),
{
    lemma_take_raw_field_rest(s);
    if s.len() > 0 && s[0] == '"' {
        lemma_take_quoted_body_rest(s.skip(1));
    }
}

/// A full record: fields separated by commas.  `None` for a malformed record
/// (an unterminated quote, or a quote in the middle of a field).
pub open spec fn parse_record(s: Seq<char>) -> Option<Seq<Seq<char>>>
    decreases s.len(),
    via parse_record_decreases
{
    match take_field(s) {
        None => None,
        Some(p) => {
            if p.1.len() == 0 {
                Some(seq![p.0])
            } else {
                match parse_record(p.1.skip(1)) {
                    None => None,
                    Some(fs) => Some(seq![p.0] + fs),
                }
            }
        },
    }
}

#[via_fn]
proof fn parse_record_decreases(s: Seq<char>) {
    lemma_take_field_rest(s);
}

// ---------------------------------------------------------------------------
// Inbound: executable parser
// ---------------------------------------------------------------------------
fn take_raw_field_at(s: &str, i: usize) -> (r: Option<(Vec<char>, usize)>)
    requires
        i <= s@.len(),
    ensures
        match r {
            Some((f, j)) => i <= j <= s@.len() && take_raw_field(s@.skip(i as int)) == Some(
                (f@, s@.skip(j as int)),
            ),
            None => take_raw_field(s@.skip(i as int)) is None,
        },
    decreases s@.len() - i,
{
    proof {
        if i < s@.len() {
            assert(s@.skip(i as int)[0] == s@[i as int]);
            assert(s@.skip(i as int).skip(1) =~= s@.skip(i + 1 as int));
        }
    }
    if i == s.unicode_len() {
        assert(s@.skip(i as int).len() == 0);
        assert(s@.skip(i as int) =~= Seq::<char>::empty());
        Some((Vec::new(), i))
    } else {
        let c = s.get_char(i);
        if c == ',' {
            Some((Vec::new(), i))
        } else if c == '"' {
            None
        } else {
            match take_raw_field_at(s, i + 1) {
                None => None,
                Some((mut f, j)) => {
                    f.insert(0, c);
                    proof {
                        assert(f@ =~= seq![s@[i as int]] + f@.skip(1));
                    }
                    Some((f, j))
                },
            }
        }
    }
}

fn take_quoted_body_at(s: &str, i: usize) -> (r: Option<(Vec<char>, usize)>)
    requires
        i <= s@.len(),
    ensures
        match r {
            Some((f, j)) => i <= j <= s@.len() && take_quoted_body(s@.skip(i as int)) == Some(
                (f@, s@.skip(j as int)),
            ),
            None => take_quoted_body(s@.skip(i as int)) is None,
        },
    decreases s@.len() - i,
{
    proof {
        if i < s@.len() {
            assert(s@.skip(i as int)[0] == s@[i as int]);
            assert(s@.skip(i as int).skip(1) =~= s@.skip(i + 1 as int));
            if i + 2 <= s@.len() {
                assert(s@.skip(i as int).skip(2) =~= s@.skip(i + 2 as int));
            }
            if i + 1 < s@.len() {
                assert(s@.skip(i as int)[1] == s@[i + 1 as int]);
            }
        }
    }
    let n = s.unicode_len();
    if i == n {
        None
    } else {
        let c = s.get_char(i);
        if c == '"' {
            if i + 1 < n && s.get_char(i + 1) == '"' {
                match take_quoted_body_at(s, i + 2) {
                    None => None,
                    Some((mut f, j)) => {
                        f.insert(0, '"');
                        proof {
                            assert(f@ =~= seq!['"'] + f@.skip(1));
                        }
                        Some((f, j))
                    },
                }
            } else {
                Some((Vec::new(), i + 1))
            }
        } else {
            match take_quoted_body_at(s, i + 1) {
                None => None,
                Some((mut f, j)) => {
                    f.insert(0, c);
                    proof {
                        assert(f@ =~= seq![s@[i as int]] + f@.skip(1));
                    }
                    Some((f, j))
                },
            }
        }
    }
}

fn take_field_at(s: &str, i: usize) -> (r: Option<(Vec<char>, usize)>)
    requires
        i <= s@.len(),
    ensures
        match r {
            Some((f, j)) => i <= j <= s@.len() && take_field(s@.skip(i as int)) == Some(
                (f@, s@.skip(j as int)),
            ),
            None => take_field(s@.skip(i as int)) is None,
        },
{
    proof {
        if i < s@.len() {
            assert(s@.skip(i as int)[0] == s@[i as int]);
            assert(s@.skip(i as int).skip(1) =~= s@.skip(i + 1 as int));
        }
    }
    if i < s.unicode_len() && s.get_char(i) == '"' {
        match take_quoted_body_at(s, i + 1) {
            None => None,
            Some((f, j)) => {
                proof {
                    if j < s@.len() {
                        assert(s@.skip(j as int)[0] == s@[j as int]);
                    }
                }
                if j == s.unicode_len() {
                    Some((f, j))
                } else if s.get_char(j) == ',' {
                    Some((f, j))
                } else {
                    None
                }
            },
        }
    } else {
        take_raw_field_at(s, i)
    }
}

fn parse_record_at(s: &str, i: usize) -> (r: Option<Vec<String>>)
    requires
        i <= s@.len(),
    ensures
        match r {
            Some(fs) => parse_record(s@.skip(i as int)) matches Some(spec_fs) && fs@.len()
                == spec_fs.len() && (forall|k: int| 0 <= k < fs@.len() ==> fs@[k]@ == spec_fs[k]),
            None => parse_record(s@.skip(i as int)) is None,
        },
    decreases s@.len() - i,
{
    match take_field_at(s, i) {
        None => None,
        Some((f, j)) => {
            proof {
                lemma_take_field_rest(s@.skip(i as int));
                if j < s@.len() {
                    assert(s@.skip(j as int)[0] == s@[j as int]);
                    assert(s@.skip(j as int).skip(1) =~= s@.skip(j + 1 as int));
                }
            }
            let field = chars_to_string(&f);
            if j == s.unicode_len() {
                let mut out: Vec<String> = Vec::new();
                out.push(field);
                Some(out)
            } else {
                // the rest begins with the separating comma
                match parse_record_at(s, j + 1) {
                    None => None,
                    Some(mut fs) => {
                        fs.insert(0, field);
                        Some(fs)
                    },
                }
            }
        },
    }
}

/// Parses one SmartREST frame into its fields.
pub fn parse_record_str(s: &str) -> (r: Option<Vec<String>>)
    ensures
        match r {
            Some(fs) => parse_record(s@) matches Some(spec_fs) && fs@.len() == spec_fs.len() && (
            forall|k: int| 0 <= k < fs@.len() ==> fs@[k]@ == spec_fs[k]),
            None => parse_record(s@) is None,
        },
{
    proof {
        assert(s@.skip(0) =~= s@);
    }
    parse_record_at(s, 0)
}

// ---------------------------------------------------------------------------
// Inbound: the two config operation requests
// ---------------------------------------------------------------------------
/// A `526` frame: the cloud asks for a configuration file to be uploaded.
pub struct SmartRestConfigUploadRequest {
    pub device: String,
    pub config_type: String,
}

/// A `524` frame: the cloud asks for a configuration file to be applied.
pub struct SmartRestConfigDownloadRequest {
    pub device: String,
    pub url: String,
    pub config_type: String,
}

impl View for SmartRestConfigDownloadRequest {
    type V = (Seq<char>, Seq<char>, Seq<char>);

    open spec fn view(&self) -> (Seq<char>, Seq<char>, Seq<char>) {
        (self.device@, self.url@, self.config_type@)
    }
}

/// What a well-formed `526` frame holds: exactly the message id, the device
/// external id and the config type.
pub open spec fn spec_upload_request(s: Seq<char>) -> Option<(Seq<char>, Seq<char>)> {
    match parse_record(s) {
        None => None,
        Some(fs) => if fs.len() == 3 && fs[0] == "526"@ {
            Some((fs[1], fs[2]))
        } else {
            None
        },
    }
}

/// What a well-formed `524` frame holds: the message id, the device external
/// id, the remote URL and the config type.
pub open spec fn spec_download_request(s: Seq<char>) -> Option<(Seq<char>, Seq<char>, Seq<char>)> {
    match parse_record(s) {
        None => None,
        Some(fs) => if fs.len() == 4 && fs[0] == "524"@ {
            Some((fs[1], fs[2], fs[3]))
        } else {
            None
        },
    }
}

impl SmartRestConfigUploadRequest {
    /// Parses a `526,<device>,<config_type>` frame.
    pub fn from_smartrest(s: &str) -> (r: Result<SmartRestConfigUploadRequest, MapperError>)
        ensures
            match r {
                Ok(req) => spec_upload_request(s@) == Some((req.device@, req.config_type@)),
                Err(e) => spec_upload_request(s@) is None && e is SmartRestParse,
            },
    {
        match parse_record_str(s) {
            None => Err(MapperError::SmartRestParse),
            Some(mut fs) => {
                if fs.len() == 3 && str_eq(fs[0].as_str(), "526") {
                    let config_type = fs.pop().unwrap();
                    let device = fs.pop().unwrap();
                    Ok(SmartRestConfigUploadRequest { device, config_type })
                } else {
                    Err(MapperError::SmartRestParse)
                }
            },
        }
    }
}

impl SmartRestConfigDownloadRequest {
    /// Parses a `524,<device>,<url>,<config_type>` frame.
    pub fn from_smartrest(s: &str) -> (r: Result<SmartRestConfigDownloadRequest, MapperError>)
        ensures
            match r {
                Ok(req) => spec_download_request(s@) == Some(
                    (req.device@, req.url@, req.config_type@),
                ),
                Err(e) => spec_download_request(s@) is None && e is SmartRestParse,
            },
    {
        match parse_record_str(s) {
            None => Err(MapperError::SmartRestParse),
            Some(mut fs) => {
                if fs.len() == 4 && str_eq(fs[0].as_str(), "524") {
                    let config_type = fs.pop().unwrap();
                    let url = fs.pop().unwrap();
                    let device = fs.pop().unwrap();
                    Ok(SmartRestConfigDownloadRequest { device, url, config_type })
                } else {
                    Err(MapperError::SmartRestParse)
                }
            },
        }
    }
}

// ---------------------------------------------------------------------------
// Outbound: frame serializers
// ---------------------------------------------------------------------------
/// The cloud-side operations this engine drives.
pub enum CumulocitySupportedOperations {
    C8yUploadConfigFile,
    C8yDownloadConfigFile,
}

/// The cloud-side name of an operation.
pub open spec fn spec_op_name(op: CumulocitySupportedOperations) -> Seq<char> {
    match op {
        CumulocitySupportedOperations::C8yUploadConfigFile => "c8y_UploadConfigFile"@,
        CumulocitySupportedOperations::C8yDownloadConfigFile => "c8y_DownloadConfigFile"@,
    }
}

impl CumulocitySupportedOperations {
    /// The cloud-side name of the operation, as it stands in SmartREST frames
    /// and marker file names.
    pub fn name(&self) -> (r: &'static str)
        ensures
            r@ == spec_op_name(*self),
    {
        match self {
            CumulocitySupportedOperations::C8yUploadConfigFile => "c8y_UploadConfigFile",
            CumulocitySupportedOperations::C8yDownloadConfigFile => "c8y_DownloadConfigFile",
        }
    }
}

/// A field with every quote doubled, as the CSV dialect asks.
pub open spec fn doubled_quotes(s: Seq<char>) -> Seq<char>
    decreases s.len(),
{
    if s.len() == 0 {
        Seq::<char>::empty()
    } else if s[0] == '"' {
        seq!['"', '"'] + doubled_quotes(s.skip(1))
    } else {
        seq![s[0]] + doubled_quotes(s.skip(1))
    }
}

proof fn lemma_doubled_quotes_push(s: Seq<char>, c: char)
    ensures
        doubled_quotes(s.push(c)) =~= doubled_quotes(s) + if c == '"' {
            seq!['"', '"']
        } else {
            seq![c]
        },
    decreases s.len(),
{
    if s.len() == 0 {
        assert(s.push(c)[0] == c);
        assert(s.push(c).skip(1) =~= Seq::<char>::empty());
        if c == '"' {
            assert(doubled_quotes(s.push(c)) =~= seq!['"', '"'] + doubled_quotes(
                s.push(c).skip(1),
            ));
        } else {
            assert(doubled_quotes(s.push(c)) =~= seq![c] + doubled_quotes(s.push(c).skip(1)));
        }
    } else {
        assert(s.push(c)[0] == s[0]);
        assert(s.push(c).skip(1) =~= s.skip(1).push(c));
        lemma_doubled_quotes_push(s.skip(1), c);
        if s[0] == '"' {
            assert(doubled_quotes(s.push(c)) =~= seq!['"', '"'] + doubled_quotes(
                s.push(c).skip(1),
            ));
            assert(doubled_quotes(s) =~= seq!['"', '"'] + doubled_quotes(s.skip(1)));
        } else {
            assert(doubled_quotes(s.push(c)) =~= seq![s[0]] + doubled_quotes(s.push(c).skip(1)));
            assert(doubled_quotes(s) =~= seq![s[0]] + doubled_quotes(s.skip(1)));
        }
    }
}

/// A field wrapped in quotes, with inner quotes doubled.
pub open spec fn csv_quoted(s: Seq<char>) -> Seq<char> {
    seq!['"'] + doubled_quotes(s) + seq!['"']
}

/// Wraps a field in quotes, doubling the quotes it holds.
pub fn csv_quote(s: &str) -> (r: String)
    ensures
        r@ == csv_quoted(s@),
{
    let n = s.unicode_len();
    let mut r = String::new();
    crate::text::push_char(&mut r, '"');
    let mut i: usize = 0;
    proof {
        assert(s@.subrange(0, 0) =~= Seq::<char>::empty());
        assert(r@ =~= seq!['"'] + doubled_quotes(s@.subrange(0, 0)));
    }
    while i < n
        invariant
            i <= n,
            n == s@.len(),
            r@ == seq!['"'] + doubled_quotes(s@.subrange(0, i as int)),
        decreases n - i,
    {
        let c = s.get_char(i);
        if c == '"' {
            crate::text::push_char(&mut r, '"');
            crate::text::push_char(&mut r, '"');
        } else {
            crate::text::push_char(&mut r, c);
        }
        i = i + 1;
        proof {
            assert(s@.subrange(0, i as int) =~= s@.subrange(0, i - 1 as int).push(
                s@[i - 1 as int],
            ));
            lemma_doubled_quotes_push(s@.subrange(0, i - 1 as int), s@[i - 1 as int]);
            assert(r@ =~= seq!['"'] + doubled_quotes(s@.subrange(0, i as int)));
        }
    }
    proof {
        assert(s@.subrange(0, n as int) =~= s@);
    }
    crate::text::push_char(&mut r, '"');
    proof {
        assert(r@ =~= csv_quoted(s@));
    }
    r
}

/// The `501` frame: the operation moved to Executing.
pub open spec fn spec_executing_frame(op: CumulocitySupportedOperations) -> Seq<char> {
    "501,"@ + spec_op_name(op)
}

/// Serializes the `501,<op>` frame.
pub fn set_operation_executing(op: CumulocitySupportedOperations) -> (r: String)
    ensures
        r@ == spec_executing_frame(op),
{
    let mut r = String::from_str("501,");
    r.append(op.name());
    r
}

/// The `502` frame: the operation failed; the reason is always quoted.
pub open spec fn spec_failed_frame(op: CumulocitySupportedOperations, reason: Seq<char>) -> Seq<
    char,
> {
    "502,"@ + spec_op_name(op) + ","@ + csv_quoted(reason)
}

/// Serializes the `502,<op>,"<reason>"` frame.
pub fn set_operation_failed(op: CumulocitySupportedOperations, reason: &str) -> (r: String)
    ensures
        r@ == spec_failed_frame(op, reason@),
{
    let mut r = String::from_str("502,");
    r.append(op.name());
    r.append(",");
    let quoted = csv_quote(reason);
    r.append(quoted.as_str());
    proof {
        assert(r@ =~= spec_failed_frame(op, reason@));
    }
    r
}

/// The `503` frame: the operation succeeded, with an optional response
/// parameter.
pub open spec fn spec_successful_frame(
    op: CumulocitySupportedOperations,
    param: Option<Seq<char>>,
) -> Seq<char> {
    match param {
        None => "503,"@ + spec_op_name(op),
        Some(p) => "503,"@ + spec_op_name(op) + ","@ + p,
    }
}

/// Serializes the `503,<op>[,<param>]` frame.
pub fn set_operation_successful(op: CumulocitySupportedOperations, param: Option<&str>) -> (r:
    String)
    ensures
        r@ == match param {
            None => spec_successful_frame(op, None),
            Some(p) => spec_successful_frame(op, Some(p@)),
        },
{
    let mut r = String::from_str("503,");
    r.append(op.name());
    match param {
        None => {},
        Some(p) => {
            r.append(",");
            r.append(p);
        },
    }
    proof {
        match param {
            None => {},
            Some(p) => {
                assert(r@ =~= spec_successful_frame(op, Some(p@)));
            },
        }
    }
    r
}

/// The `101` frame announcing a new child device.
pub open spec fn spec_child_creation_frame(child_id: Seq<char>) -> Seq<char> {
    "101,"@ + child_id + ","@ + child_id + ",thin-edge.io-child"@
}

/// Serializes the `101,<id>,<id>,thin-edge.io-child` frame.
pub fn child_device_creation(child_id: &str) -> (r: String)
    ensures
        r@ == spec_child_creation_frame(child_id@),
{
    let mut r = String::from_str("101,");
    r.append(child_id);
    r.append(",");
    r.append(child_id);
    r.append(",thin-edge.io-child");
    proof {
        assert(r@ =~= spec_child_creation_frame(child_id@));
    }
    r
}

/// The `119` frame listing supported config types, comma-joined.
pub open spec fn spec_types_frame(types: Seq<Seq<char>>) -> Seq<char> {
    "119,"@ + join_seq(types, ',')
}

/// Serializes the `119,<type1>,<type2>,…` frame from already-sorted types.
pub fn supported_config_types_frame(types: &Vec<String>) -> (r: String)
    ensures
        r@ == spec_types_frame(types@.map_values(|t: String| t@)),
{
    let mut r = String::from_str("119,");
    let joined = join_strings(types, ',');
    r.append(joined.as_str());
    r
}

} // verus!
