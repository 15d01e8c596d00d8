//! The analyze operation: building its request and typing its response.

use vstd::prelude::*;

use crate::error::EsError;
use crate::json::{
    json_doc_of, json_member, json_plain_chars, json_string_lit, member_of, parse_json, quoted,
    JsonValue,
};

verus! {

/// The request body: the text to analyze, and the analyzer to use where
/// one was named.
pub struct AnalyzeRequest {
    body: String,
    analyzer: Option<String>,
}

/// What a request holds, as plain character sequences.
pub struct RequestModel {
    pub body: Seq<char>,
    pub analyzer: Option<Seq<char>>,
}

impl View for AnalyzeRequest {
    type V = RequestModel;

    closed spec fn view(&self) -> RequestModel {
        RequestModel { body: self.body@, analyzer: match self.analyzer {
            Some(a) => Some(a@),
            None => None,
        } }
    }
}

/// The JSON text of a request: a `body` member always, an `analyzer`
/// member only where one was named.
pub open spec fn request_json_chars(body: Seq<char>, analyzer: Option<Seq<char>>) -> Seq<char> {
    match analyzer {
        None => "{\"body\":"@ + json_string_lit(body) + "}"@,
        Some(a) => "{\"body\":"@ + json_string_lit(body) + ",\"analyzer\":"@ + json_string_lit(a)
            + "}"@,
    }
}

impl AnalyzeRequest {
    /// The JSON object this request serializes to. Where nothing needs
    /// escaping, the members hold the given text verbatim between quotes.
    pub fn to_json(&self) -> (r: String)
        ensures
            r@ == request_json_chars(self@.body, self@.analyzer),
            self@.analyzer is None && json_plain_chars(self@.body) ==> r@ == "{\"body\":"@
                + quoted(self@.body) + "}"@,
            self@.analyzer matches Some(a) ==> (json_plain_chars(self@.body)
                && json_plain_chars(a) ==> r@ == "{\"body\":"@ + quoted(self@.body)
                + ",\"analyzer\":"@ + quoted(a) + "}"@),
    {
        let mut out = String::from_str("{\"body\":");
        out.append(crate::json::json_quote(self.body.as_str()).as_str());
        match &self.analyzer {
            Some(a) => {
                out.append(",\"analyzer\":");
                out.append(crate::json::json_quote(a.as_str()).as_str());
            },
            None => {},
        }
        out.append("}");
        out
    }
}

/// One analyze operation: the request plus the index it is scoped to,
/// where one was named. Built once, configured by the `with_` methods,
/// and read out by `url_path` and `to_json` when the caller posts it.
pub struct AnalyzeOperation {
    index: Option<String>,
    req: AnalyzeRequest,
}

/// What an operation holds, as plain character sequences.
pub struct OperationModel {
    pub index: Option<Seq<char>>,
    pub req: RequestModel,
}

impl View for AnalyzeOperation {
    type V = OperationModel;

    closed spec fn view(&self) -> OperationModel {
        OperationModel { index: match self.index {
            Some(i) => Some(i@),
            None => None,
        }, req: self.req@ }
    }
}

/// The target path of an operation: `/_analyze`, under the index where
/// one was named.
pub open spec fn url_chars(index: Option<Seq<char>>) -> Seq<char> {
    match index {
        None => "/_analyze"@,
        Some(i) => "/"@ + i + "/_analyze"@,
    }
}

impl AnalyzeOperation {
    /// An operation on `body`, scoped to no index, naming no analyzer.
    pub fn new(body: &str) -> (r: Self)
        ensures
            r@.req.body == body@,
            r@.req.analyzer is None,
            r@.index is None,
    {
        AnalyzeOperation {
            index: None,
            req: AnalyzeRequest { body: String::from_str(body), analyzer: None },
        }
    }

    /// Scopes the analysis to `index`; a later call overwrites an earlier.
    pub fn with_index(self, index: &str) -> (r: Self)
        ensures
            r@.index == Some(index@),
            r@.req == self@.req,
    {
        AnalyzeOperation { index: Some(String::from_str(index)), req: self.req }
    }

    /// Names the analyzer to use; a later call overwrites an earlier.
    pub fn with_analyzer(self, analyzer: &str) -> (r: Self)
        ensures
            r@.req.analyzer == Some(analyzer@),
            r@.req.body == self@.req.body,
            r@.index == self@.index,
    {
        AnalyzeOperation {
            index: self.index,
            req: AnalyzeRequest {
                body: self.req.body,
                analyzer: Some(String::from_str(analyzer)),
            },
        }
    }

    /// The path the request is posted to.
    pub fn url_path(&self) -> (r: String)
        ensures
            r@ == url_chars(self@.index),
    {
        match &self.index {
            None => String::from_str("/_analyze"),
            Some(index) => {
                let mut out = String::from_str("/");
                out.append(index.as_str());
                out.append("/_analyze");
                out
            },
        }
    }

    /// The JSON body the request is posted with. Where nothing needs
    /// escaping, the members hold the given text verbatim between quotes.
    pub fn to_json(&self) -> (r: String)
        ensures
            r@ == request_json_chars(self@.req.body, self@.req.analyzer),
            self@.req.analyzer is None && json_plain_chars(self@.req.body) ==> r@ == "{\"body\":"@
                + quoted(self@.req.body) + "}"@,
            self@.req.analyzer matches Some(a) ==> (json_plain_chars(self@.req.body)
                && json_plain_chars(a) ==> r@ == "{\"body\":"@ + quoted(self@.req.body)
                + ",\"analyzer\":"@ + quoted(a) + "}"@),
    {
        self.req.to_json()
    }
}

/// One analyzed unit of the input text: its surface text, the lexical
/// category the analyzer gave it, its ordinal among the tokens, and the
/// offsets it covers in the original text.
#[derive(Clone, Debug, PartialEq)]
pub struct Token {
    pub token: String,
    pub token_type: String,
    pub position: u64,
    pub start_offset: u64,
    pub end_offset: u64,
}

/// What a token holds, as plain values.
pub struct TokenModel {
    pub token: Seq<char>,
    pub token_type: Seq<char>,
    pub position: u64,
    pub start_offset: u64,
    pub end_offset: u64,
}

impl View for Token {
    type V = TokenModel;

    closed spec fn view(&self) -> TokenModel {
        TokenModel {
            token: self.token@,
            token_type: self.token_type@,
            position: self.position,
            start_offset: self.start_offset,
            end_offset: self.end_offset,
        }
    }
}

/// The token one element of the `tokens` array describes: `None` where a
/// field is missing or of the wrong type. The `type` member lands in the
/// `token_type` field.
pub open spec fn token_of(v: JsonValue) -> Option<TokenModel> {
    match (member_of(v, "token"@), member_of(v, "type"@)) {
        (Some(JsonValue::Str(t)), Some(JsonValue::Str(ty))) => match (
            member_of(v, "position"@),
            member_of(v, "start_offset"@),
            member_of(v, "end_offset"@),
        ) {
            (
                Some(JsonValue::UInt(p)),
                Some(JsonValue::UInt(s)),
                Some(JsonValue::UInt(e)),
            ) => Some(
                TokenModel {
                    token: t@,
                    token_type: ty@,
                    position: p,
                    start_offset: s,
                    end_offset: e,
                },
            ),
            _ => None,
        },
        _ => None,
    }
}

/// The tokens a response document carries: `None` where the document has
/// no `tokens` array, or where some element of it describes no token.
/// Order follows the array; nothing is re-sorted.
pub open spec fn tokens_of(v: JsonValue) -> Option<Seq<TokenModel>> {
    match member_of(v, "tokens"@) {
        Some(JsonValue::Array(elts)) => if forall|i: int|
            0 <= i < elts@.len() ==> (#[trigger] token_of(elts@[i])) is Some {
            Some(Seq::new(elts@.len(), |i: int| token_of(elts@[i]).unwrap()))
        } else {
            None
        },
        _ => None,
    }
}

impl Token {
    /// Reads one element of the `tokens` array, exactly as `token_of`
    /// describes it.
    pub fn from_json(v: &JsonValue) -> (r: Option<Token>)
        ensures
            match r {
                Some(t) => token_of(*v) == Some(t@),
                None => token_of(*v) is None,
            },
    {
        let token = match json_member(v, &String::from_str("token")) {
            Some(JsonValue::Str(t)) => t.clone(),
            _ => { return None; },
        };
        let token_type = match json_member(v, &String::from_str("type")) {
            Some(JsonValue::Str(t)) => t.clone(),
            _ => { return None; },
        };
        let position = match json_member(v, &String::from_str("position")) {
            Some(JsonValue::UInt(n)) => *n,
            _ => { return None; },
        };
        let start_offset = match json_member(v, &String::from_str("start_offset")) {
            Some(JsonValue::UInt(n)) => *n,
            _ => { return None; },
        };
        let end_offset = match json_member(v, &String::from_str("end_offset")) {
            Some(JsonValue::UInt(n)) => *n,
            _ => { return None; },
        };
        Some(Token { token, token_type, position, start_offset, end_offset })
    }
}

/// The outcome of an analyze operation: the tokens the analyzer produced,
/// in response order.
#[derive(Clone, Debug, PartialEq)]
pub struct AnalyzeResult {
    pub tokens: Vec<Token>,
}

impl View for AnalyzeResult {
    type V = Seq<TokenModel>;

    closed spec fn view(&self) -> Seq<TokenModel> {
        self.tokens@.map_values(|t: Token| t@)
    }
}

impl AnalyzeResult {
    /// Types a response document, exactly as `tokens_of` describes it:
    /// the whole `tokens` array or a malformed-response error, never a
    /// partial list.
    pub fn from_json(v: &JsonValue) -> (r: Result<AnalyzeResult, EsError>)
        ensures
            match r {
                Ok(res) => tokens_of(*v) == Some(res@),
                Err(e) => tokens_of(*v) is None && e == EsError::MalformedResponse,
            },
    {
        let arr = match json_member(v, &String::from_str("tokens")) {
            Some(JsonValue::Array(elts)) => elts,
            _ => { return Err(EsError::MalformedResponse); },
        };
        let n = arr.len();
        let mut tokens: Vec<Token> = Vec::new();
        let mut i: usize = 0;
        while i < n
            invariant
                i <= n,
                n == arr@.len(),
                member_of(*v, "tokens"@) == Some(JsonValue::Array(*arr)),
                tokens@.len() == i,
                forall|j: int| 0 <= j < i ==> #[trigger] token_of(arr@[j]) == Some(tokens@[j]@),
            decreases n - i,
        {
            match Token::from_json(&arr[i]) {
                Some(t) => tokens.push(t),
                None => {
                    proof {
                        assert(token_of(arr@[i as int]) is None);
                    }
                    return Err(EsError::MalformedResponse);
                },
            }
            i += 1;
        }
        proof {
            assert(forall|j: int| 0 <= j < arr@.len() ==> (#[trigger] token_of(arr@[j])) is Some);
            assert(Seq::new(arr@.len(), |j: int| token_of(arr@[j]).unwrap()) =~= tokens@
                .map_values(|t: Token| t@));
            assert(tokens_of(*v) == Some(tokens@.map_values(|t: Token| t@)));
        }
        Ok(AnalyzeResult { tokens })
    }

    /// Types the payload of a completed exchange: no payload is a
    /// missing-payload error; text that is not valid JSON, or a document
    /// without its `tokens`, a malformed-response error; a well-formed
    /// document, exactly its tokens.
    pub fn from_response(payload: Option<&str>) -> (r: Result<AnalyzeResult, EsError>)
        ensures
            match payload {
                None => r == Err::<AnalyzeResult, EsError>(EsError::MissingPayload),
                Some(text) => match json_doc_of(text@) {
                    None => r == Err::<AnalyzeResult, EsError>(EsError::MalformedResponse),
                    Some(doc) => match r {
                        Ok(res) => tokens_of(doc) == Some(res@),
                        Err(e) => tokens_of(doc) is None && e == EsError::MalformedResponse,
                    },
                },
            },
    {
        match payload {
            None => Err(EsError::MissingPayload),
            Some(text) => match parse_json(text) {
                None => Err(EsError::MalformedResponse),
                Some(doc) => AnalyzeResult::from_json(&doc),
            },
        }
    }
}

/// An operation configured with no index and no analyzer posts to
/// `/_analyze` a JSON object holding the quoted body alone — in
/// particular, no `analyzer` member.
pub proof fn lemma_request_unscoped(body: Seq<char>)
    ensures
        url_chars(None) == "/_analyze"@,
        request_json_chars(body, None) == "{\"body\":"@ + json_string_lit(body) + "}"@,
{
}

/// An operation scoped to an index and naming an analyzer posts to
/// `/<index>/_analyze` a JSON object holding the quoted body and the
/// quoted analyzer name, in that order.
pub proof fn lemma_request_scoped(body: Seq<char>, index: Seq<char>, analyzer: Seq<char>)
    ensures
        url_chars(Some(index)) == "/"@ + index + "/_analyze"@,
        request_json_chars(body, Some(analyzer)) == "{\"body\":"@ + json_string_lit(body)
            + ",\"analyzer\":"@ + json_string_lit(analyzer) + "}"@,
{
}

/// A response whose `tokens` array is empty parses to an empty result,
/// not an error.
pub proof fn lemma_empty_tokens(v: JsonValue, elts: Vec<JsonValue>)
    requires
        member_of(v, "tokens"@) == Some(JsonValue::Array(elts)),
        elts@.len() == 0,
    ensures
        tokens_of(v) == Some(Seq::<TokenModel>::empty()),
{
    assert(Seq::new(elts@.len(), |i: int| token_of(elts@[i]).unwrap())
        =~= Seq::<TokenModel>::empty());
}

/// A response without a `tokens` member parses to an error, never to a
/// result.
pub proof fn lemma_missing_tokens(v: JsonValue)
    requires
        member_of(v, "tokens"@) is None,
    ensures
        tokens_of(v) is None,
{
}

/// One element of the `tokens` array that describes no token fails the
/// whole parse: no partial token list exists.
pub proof fn lemma_malformed_token(v: JsonValue, elts: Vec<JsonValue>, i: int)
    requires
        member_of(v, "tokens"@) == Some(JsonValue::Array(elts)),
        0 <= i < elts@.len(),
        token_of(elts@[i]) is None,
    ensures
        tokens_of(v) is None,
{
}

} // verus!

