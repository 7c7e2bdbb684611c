//! The static definition of a remote-call block and its construction from
//! the key/value nodes of a parsed block body.

use vstd::prelude::*;
use vstd::string::StringExecFns;

verus! {

/// One sub-node of a parsed block body.
#[derive(Debug, Clone)]
pub enum Node {
    /// A named key/value pair.
    Pair { key: String, value: String },
    /// The marker of an `expected` assertion.
    Expected,
}

/// What a [`Node`] holds, as a mathematical value.
pub enum NodeView {
    Pair { key: Seq<char>, value: Seq<char> },
    Expected,
}

impl View for Node {
    type V = NodeView;

    open spec fn view(&self) -> NodeView {
        match self {
            Node::Pair { key, value } => NodeView::Pair { key: key@, value: value@ },
            Node::Expected => NodeView::Expected,
        }
    }
}

/// The four fields that every definition carries.
#[derive(Debug, Clone, Copy, PartialEq, Eq, Structural)]
pub enum Field {
    Method,
    Url,
    HeadersCode,
    BodyCode,
}

impl Field {
    /// The key under which the field is written in a block body.
    pub open spec fn key(self) -> Seq<char> {
        match self {
            Field::Method => "method"@,
            Field::Url => "url"@,
            Field::HeadersCode => "headers_code"@,
            Field::BodyCode => "body_code"@,
        }
    }

    /// The key under which the field is written in a block body.
    pub fn name(self) -> (name: &'static str)
        ensures
            name@ == self.key(),
    {
        match self {
            Field::Method => "method",
            Field::Url => "url",
            Field::HeadersCode => "headers_code",
            Field::BodyCode => "body_code",
        }
    }
}

/// Why a block body is not a definition.
#[derive(Debug, Clone)]
pub enum ParseError {
    /// A pair whose key is none of the four field names.
    UnexpectedKey(String),
    /// The body holds an `expected` assertion, which this block does not take.
    ExpectedUnsupported,
    /// No pair gives the field.
    MissingField(Field),
}

/// What a [`ParseError`] holds, as a mathematical value.
pub enum ParseErrorView {
    UnexpectedKey(Seq<char>),
    ExpectedUnsupported,
    MissingField(Field),
}

impl View for ParseError {
    type V = ParseErrorView;

    open spec fn view(&self) -> ParseErrorView {
        match self {
            ParseError::UnexpectedKey(key) => ParseErrorView::UnexpectedKey(key@),
            ParseError::ExpectedUnsupported => ParseErrorView::ExpectedUnsupported,
            ParseError::MissingField(field) => ParseErrorView::MissingField(*field),
        }
    }
}

impl ParseErrorView {
    /// The text of the error.
    pub open spec fn message(self) -> Seq<char> {
        match self {
            ParseErrorView::UnexpectedKey(key) => "Unexpected `"@ + key + "` in `curl` block"@,
            ParseErrorView::ExpectedUnsupported => "`expected` is not yet supported in `curl` block"@,
            ParseErrorView::MissingField(field) => "Missing required `"@ + field.key()
                + "` in `curl` block"@,
        }
    }
}

impl ParseError {
    /// The text of the error, which names the offending key or the missing field.
    pub fn message(&self) -> (text: String)
        ensures
            text@ == self@.message(),
    {
        match self {
            ParseError::UnexpectedKey(key) => {
                let mut text = String::from_str("Unexpected `");
                text.append(key.as_str());
                text.append("` in `curl` block");
                text
            },
            ParseError::ExpectedUnsupported => String::from_str(
                "`expected` is not yet supported in `curl` block",
            ),
            ParseError::MissingField(field) => {
                let mut text = String::from_str("Missing required `");
                text.append(field.name());
                text.append("` in `curl` block");
                text
            },
        }
    }
}

/// The definition of a remote-call block: four texts, fixed once parsed.
#[derive(Debug, Clone)]
pub struct Curl {
    method: String,
    url: String,
    headers_code: String,
    body_code: String,
}

/// What a [`Curl`] holds, as a mathematical value.
pub struct CurlView {
    pub method: Seq<char>,
    pub url: Seq<char>,
    pub headers_code: Seq<char>,
    pub body_code: Seq<char>,
}

impl View for Curl {
    type V = CurlView;

    closed spec fn view(&self) -> CurlView {
        CurlView {
            method: self.method@,
            url: self.url@,
            headers_code: self.headers_code@,
            body_code: self.body_code@,
        }
    }
}

/// Whether `key` is the name of one of the four fields.
pub open spec fn known_key(key: Seq<char>) -> bool {
    key == Field::Method.key() || key == Field::Url.key() || key == Field::HeadersCode.key() || key
        == Field::BodyCode.key()
}

/// Whether a node may stand in the body of a remote-call block.
pub open spec fn accepted(node: NodeView) -> bool {
    match node {
        NodeView::Pair { key, value } => known_key(key),
        NodeView::Expected => false,
    }
}

/// The error that a node which is not [`accepted`] gives.
pub open spec fn rejection(node: NodeView) -> ParseErrorView {
    match node {
        NodeView::Pair { key, value } => ParseErrorView::UnexpectedKey(key),
        NodeView::Expected => ParseErrorView::ExpectedUnsupported,
    }
}

/// The first node of `nodes`, in source order, that is not [`accepted`].
pub open spec fn first_rejected(nodes: Seq<NodeView>) -> Option<NodeView>
    decreases nodes.len(),
{
    if nodes.len() == 0 {
        None
    } else {
        match first_rejected(nodes.drop_last()) {
            Some(node) => Some(node),
            None => if accepted(nodes.last()) {
                None
            } else {
                Some(nodes.last())
            },
        }
    }
}

/// The value of the last pair of `nodes` whose key is `key`.
pub open spec fn last_value(nodes: Seq<NodeView>, key: Seq<char>) -> Option<Seq<char>>
    decreases nodes.len(),
{
    if nodes.len() == 0 {
        None
    } else {
        match nodes.last() {
            NodeView::Pair { key: k, value } if k == key => Some(value),
            _ => last_value(nodes.drop_last(), key),
        }
    }
}

/// The definition that a block body gives, or the reason why it gives none.
///
/// The nodes are read in source order and the first one that is not
/// [`accepted`] decides the error. Where all are accepted, the four fields
/// are looked for in the order method, url, headers code, body code, and the
/// first one that no pair gives decides the error. Of several pairs with one
/// key the last counts.
pub open spec fn parse_spec(nodes: Seq<NodeView>) -> Result<CurlView, ParseErrorView> {
    if let Some(node) = first_rejected(nodes) {
        Err(rejection(node))
    } else if last_value(nodes, Field::Method.key()) is None {
        Err(ParseErrorView::MissingField(Field::Method))
    } else if last_value(nodes, Field::Url.key()) is None {
        Err(ParseErrorView::MissingField(Field::Url))
    } else if last_value(nodes, Field::HeadersCode.key()) is None {
        Err(ParseErrorView::MissingField(Field::HeadersCode))
    } else if last_value(nodes, Field::BodyCode.key()) is None {
        Err(ParseErrorView::MissingField(Field::BodyCode))
    } else {
        Ok(
            CurlView {
                method: last_value(nodes, Field::Method.key())->0,
                url: last_value(nodes, Field::Url.key())->0,
                headers_code: last_value(nodes, Field::HeadersCode.key())->0,
                body_code: last_value(nodes, Field::BodyCode.key())->0,
            },
        )
    }
}

/// The views of the nodes of a block body, in source order.
pub open spec fn node_views(nodes: Seq<Node>) -> Seq<NodeView> {
    nodes.map_values(|node: Node| node@)
}

/// What a result of [`Curl::parse`] holds, as a mathematical value.
pub open spec fn parse_result_view(result: Result<Curl, ParseError>) -> Result<
    CurlView,
    ParseErrorView,
> {
    match result {
        Ok(curl) => Ok(curl@),
        Err(error) => Err(error@),
    }
}

/// Whether `key` is the key of `field`.
fn is_field(key: &String, field: Field) -> (same: bool)
    ensures
        same == (key@ == field.key()),
{
    let name = String::from_str(field.name());
    *key == name
}

impl Curl {
    /// Builds the definition from the nodes of a block body.
    pub fn parse(nodes: &[Node]) -> (result: Result<Curl, ParseError>)
        ensures
            parse_result_view(result) == parse_spec(node_views(nodes@)),
    {
        let ghost views = node_views(nodes@);
        let mut method: Option<String> = None;
        let mut url: Option<String> = None;
        let mut headers_code: Option<String> = None;
        let mut body_code: Option<String> = None;
        let mut i: usize = 0;
        while i < nodes.len()
            invariant
                i <= nodes.len(),
                views == node_views(nodes@),
                first_rejected(views.take(i as int)) is None,
                option_view(method) == last_value(views.take(i as int), Field::Method.key()),
                option_view(url) == last_value(views.take(i as int), Field::Url.key()),
                option_view(headers_code) == last_value(
                    views.take(i as int),
                    Field::HeadersCode.key(),
                ),
                option_view(body_code) == last_value(views.take(i as int), Field::BodyCode.key()),
            decreases nodes.len() - i,
        {
            proof {
                assert(views.take(i as int + 1).drop_last() =~= views.take(i as int));
                assert(views.take(i as int + 1).last() == nodes@[i as int]@);
                field_keys_differ();
            }
            match &nodes[i] {
                Node::Pair { key, value } => {
                    if is_field(key, Field::Method) {
                        method = Some(value.clone());
                    } else if is_field(key, Field::Url) {
                        url = Some(value.clone());
                    } else if is_field(key, Field::HeadersCode) {
                        headers_code = Some(value.clone());
                    } else if is_field(key, Field::BodyCode) {
                        body_code = Some(value.clone());
                    } else {
                        proof {
                            first_rejected_extends(views, i as int + 1);
                        }
                        return Err(ParseError::UnexpectedKey(key.clone()));
                    }
                },
                Node::Expected => {
                    proof {
                        first_rejected_extends(views, i as int + 1);
                    }
                    return Err(ParseError::ExpectedUnsupported);
                },
            }
            i = i + 1;
        }
        assert(views.take(i as int) =~= views);
        match (method, url, headers_code, body_code) {
            (None, _, _, _) => Err(ParseError::MissingField(Field::Method)),
            (Some(_), None, _, _) => Err(ParseError::MissingField(Field::Url)),
            (Some(_), Some(_), None, _) => Err(ParseError::MissingField(Field::HeadersCode)),
            (Some(_), Some(_), Some(_), None) => Err(ParseError::MissingField(Field::BodyCode)),
            (Some(method), Some(url), Some(headers_code), Some(body_code)) => Ok(
                Curl { method, url, headers_code, body_code },
            ),
        }
    }

    /// A copy of the definition, with the same four texts.
    pub fn duplicate(&self) -> (copy: Curl)
        ensures
            copy@ == self@,
    {
        Curl {
            method: self.method.clone(),
            url: self.url.clone(),
            headers_code: self.headers_code.clone(),
            body_code: self.body_code.clone(),
        }
    }

    /// The request method.
    pub fn method(&self) -> (text: &str)
        ensures
            text@ == self@.method,
    {
        self.method.as_str()
    }

    /// The URL template.
    pub fn url(&self) -> (text: &str)
        ensures
            text@ == self@.url,
    {
        self.url.as_str()
    }

    /// The code that computes the headers at run time.
    pub fn headers_code(&self) -> (text: &str)
        ensures
            text@ == self@.headers_code,
    {
        self.headers_code.as_str()
    }

    /// The code that computes the body at run time.
    pub fn body_code(&self) -> (text: &str)
        ensures
            text@ == self@.body_code,
    {
        self.body_code.as_str()
    }
}

/// The text that an optional string holds.
pub open spec fn option_view(text: Option<String>) -> Option<Seq<char>> {
    match text {
        Some(text) => Some(text@),
        None => None,
    }
}

/// The four field names are four different texts.
pub proof fn field_keys_differ()
    ensures
        Field::Method.key() != Field::Url.key(),
        Field::Method.key() != Field::HeadersCode.key(),
        Field::Method.key() != Field::BodyCode.key(),
        Field::Url.key() != Field::HeadersCode.key(),
        Field::Url.key() != Field::BodyCode.key(),
        Field::HeadersCode.key() != Field::BodyCode.key(),
{
    reveal_strlit("method");
    reveal_strlit("url");
    reveal_strlit("headers_code");
    reveal_strlit("body_code");
    assert("method"@.len() == 6);
    assert("url"@.len() == 3);
    assert("headers_code"@.len() == 12);
    assert("body_code"@.len() == 9);
}

/// A rejected node stays the first rejected one however the body goes on.
pub proof fn first_rejected_extends(nodes: Seq<NodeView>, n: int)
    requires
        0 <= n <= nodes.len(),
        first_rejected(nodes.take(n)) is Some,
    ensures
        first_rejected(nodes) == first_rejected(nodes.take(n)),
    decreases nodes.len() - n,
{
    if n < nodes.len() {
        assert(nodes.take(n + 1).drop_last() =~= nodes.take(n));
        first_rejected_extends(nodes, n + 1);
    } else {
        assert(nodes.take(n) =~= nodes);
    }
}

/// Whether some pair of `nodes` has the key `key`.
pub open spec fn has_pair(nodes: Seq<NodeView>, key: Seq<char>) -> bool {
    exists|i: int| 0 <= i < nodes.len() && #[trigger] is_pair_of(nodes[i], key)
}

/// Whether `node` is a pair with the key `key`.
pub open spec fn is_pair_of(node: NodeView, key: Seq<char>) -> bool {
    match node {
        NodeView::Pair { key: k, value } => k == key,
        NodeView::Expected => false,
    }
}

/// No node is rejected exactly when every node is accepted; and a rejected
/// node is a node of the body that is not accepted, with only accepted
/// nodes before it.
pub proof fn first_rejected_is_first(nodes: Seq<NodeView>)
    ensures
        first_rejected(nodes) is None <==> forall|i: int|
            0 <= i < nodes.len() ==> accepted(#[trigger] nodes[i]),
        first_rejected(nodes) is Some ==> exists|i: int|
            0 <= i < nodes.len() && first_rejected(nodes) == Some(#[trigger] nodes[i]) && !accepted(
                nodes[i],
            ) && forall|j: int| 0 <= j < i ==> accepted(#[trigger] nodes[j]),
    decreases nodes.len(),
{
    if nodes.len() > 0 {
        let front = nodes.drop_last();
        first_rejected_is_first(front);
        assert forall|i: int| 0 <= i < front.len() implies front[i] == nodes[i] by {}
        if first_rejected(front) is Some {
            let i = choose|i: int|
                0 <= i < front.len() && first_rejected(front) == Some(#[trigger] front[i])
                    && !accepted(front[i]) && forall|j: int|
                    0 <= j < i ==> accepted(#[trigger] front[j]);
            assert(first_rejected(nodes) == Some(nodes[i]));
            assert(!accepted(nodes[i]));
            assert forall|j: int| 0 <= j < i implies accepted(#[trigger] nodes[j]) by {
                assert(front[j] == nodes[j]);
            }
        } else {
            assert forall|j: int| 0 <= j < front.len() implies accepted(#[trigger] nodes[j]) by {
                assert(front[j] == nodes[j]);
            }
            if !accepted(nodes.last()) {
                let i = nodes.len() - 1;
                assert(first_rejected(nodes) == Some(nodes[i]));
            }
        }
    }
}

/// A field has a value exactly when some pair has its key.
pub proof fn last_value_is_some(nodes: Seq<NodeView>, key: Seq<char>)
    ensures
        last_value(nodes, key) is Some <==> has_pair(nodes, key),
    decreases nodes.len(),
{
    if nodes.len() > 0 {
        let front = nodes.drop_last();
        last_value_is_some(front, key);
        if is_pair_of(nodes.last(), key) {
            assert(is_pair_of(nodes[nodes.len() - 1], key));
        } else {
            if has_pair(front, key) {
                let i = choose|i: int| 0 <= i < front.len() && #[trigger] is_pair_of(front[i], key);
                assert(is_pair_of(nodes[i], key));
            }
            if has_pair(nodes, key) {
                let i = choose|i: int| 0 <= i < nodes.len() && #[trigger] is_pair_of(nodes[i], key);
                assert(is_pair_of(front[i], key));
            }
        }
    }
}

/// A body in which no pair gives `field` is no definition. Where the body
/// holds nothing but pairs with field names and each of the other three
/// fields is given, the error names `field`.
pub proof fn missing_field_fails(nodes: Seq<NodeView>, field: Field)
    requires
        !has_pair(nodes, field.key()),
    ensures
        parse_spec(nodes) is Err,
        (forall|i: int| 0 <= i < nodes.len() ==> accepted(#[trigger] nodes[i])) && (forall|
            other: Field,
        |
            other != field ==> has_pair(nodes, #[trigger] other.key())) ==> parse_spec(nodes)
            == Err::<CurlView, ParseErrorView>(ParseErrorView::MissingField(field)),
{
    first_rejected_is_first(nodes);
    last_value_is_some(nodes, Field::Method.key());
    last_value_is_some(nodes, Field::Url.key());
    last_value_is_some(nodes, Field::HeadersCode.key());
    last_value_is_some(nodes, Field::BodyCode.key());
}

/// A body that holds nothing but pairs with field names, and for each of
/// the four fields at least one, is a definition: each field has the value
/// of the last pair with its key.
pub proof fn complete_body_parses(nodes: Seq<NodeView>)
    requires
        forall|i: int| 0 <= i < nodes.len() ==> accepted(#[trigger] nodes[i]),
        forall|field: Field| has_pair(nodes, #[trigger] field.key()),
    ensures
        parse_spec(nodes) == Ok::<CurlView, ParseErrorView>(
            CurlView {
                method: last_value(nodes, Field::Method.key())->0,
                url: last_value(nodes, Field::Url.key())->0,
                headers_code: last_value(nodes, Field::HeadersCode.key())->0,
                body_code: last_value(nodes, Field::BodyCode.key())->0,
            },
        ),
{
    first_rejected_is_first(nodes);
    last_value_is_some(nodes, Field::Method.key());
    last_value_is_some(nodes, Field::Url.key());
    last_value_is_some(nodes, Field::HeadersCode.key());
    last_value_is_some(nodes, Field::BodyCode.key());
}

/// A body that holds an `expected` assertion is no definition, whatever
/// else it holds. Where no pair before the assertion has an unknown key,
/// the error is that the assertion is not supported.
pub proof fn expected_fails(nodes: Seq<NodeView>, at: int)
    requires
        0 <= at < nodes.len(),
        nodes[at] is Expected,
    ensures
        parse_spec(nodes) is Err,
        (forall|j: int| 0 <= j < at ==> !(#[trigger] nodes[j] is Pair) || accepted(nodes[j]))
            ==> parse_spec(nodes) == Err::<CurlView, ParseErrorView>(
            ParseErrorView::ExpectedUnsupported,
        ),
{
    first_rejected_is_first(nodes);
    assert(!accepted(nodes[at]));
    if forall|j: int| 0 <= j < at ==> !(#[trigger] nodes[j] is Pair) || accepted(nodes[j]) {
        let i = choose|i: int|
            0 <= i < nodes.len() && first_rejected(nodes) == Some(#[trigger] nodes[i]) && !accepted(
                nodes[i],
            ) && forall|j: int| 0 <= j < i ==> accepted(#[trigger] nodes[j]);
        if i > at {
            assert(accepted(nodes[at]));
        }
        assert(nodes[i] is Expected);
    }
}

/// A pair whose key is no field name makes the body no definition. Where
/// it is the first node that is not accepted, the error names its key.
pub proof fn unknown_key_fails(nodes: Seq<NodeView>, at: int)
    requires
        0 <= at < nodes.len(),
        nodes[at] is Pair,
        !known_key(nodes[at]->key),
    ensures
        parse_spec(nodes) is Err,
        (forall|j: int| 0 <= j < at ==> accepted(#[trigger] nodes[j])) ==> parse_spec(nodes)
            == Err::<CurlView, ParseErrorView>(ParseErrorView::UnexpectedKey(nodes[at]->key)),
{
    first_rejected_is_first(nodes);
    assert(!accepted(nodes[at]));
    if forall|j: int| 0 <= j < at ==> accepted(#[trigger] nodes[j]) {
        let i = choose|i: int|
            0 <= i < nodes.len() && first_rejected(nodes) == Some(#[trigger] nodes[i]) && !accepted(
                nodes[i],
            ) && forall|j: int| 0 <= j < i ==> accepted(#[trigger] nodes[j]);
        if i > at {
            assert(accepted(nodes[at]));
        }
        if i < at {
            assert(accepted(nodes[i]));
        }
    }
}

} // verus!
