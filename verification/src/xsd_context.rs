//! What a schema document says of namespaces: the prefix of the XML Schema
//! namespace itself, the document's prefix bindings, and the caller's table
//! from namespace to Rust module.

use vstd::prelude::*;
use crate::attribute_group::{copy_groups, group_models, AttributeGroup, GroupModel};
use crate::error::{failure, ErrorKind, GenError};
use crate::text::{copy_table, find_value, lookup, same_text, table_model, text_option};
use xml::namespace::Namespace;

verus! {

/// The namespace that marks a document as an XML Schema.
pub const XML_SCHEMA_URI: &'static str = "http://www.w3.org/2001/XMLSchema";

/// `xml::namespace::Namespace`: the prefix bindings in scope at an element.
#[verifier::external_type_specification]
#[verifier::external_body]
pub struct ExNamespace(Namespace);

/// The bindings that a namespace holds, from prefix to namespace name.
pub uninterp spec fn namespace_bindings(ns: Namespace) -> Map<Seq<char>, Seq<char>>;

/// Trusted: `Namespace::get`, a lookup of the prefix in the map that the
/// namespace wraps. It returns the bound name exactly where one is bound.
#[verifier::external_body]
pub(crate) fn namespace_get(ns: &Namespace, prefix: &str) -> (uri: Option<String>)
    ensures
        text_option(uri) == if namespace_bindings(*ns).contains_key(prefix@) {
            Some(namespace_bindings(*ns)[prefix@])
        } else {
            None
        },
{
    ns.get(prefix).map(|uri| uri.to_owned())
}

/// Trusted: `Clone::clone` of `Namespace`, which copies the map it wraps.
pub assume_specification[ <Namespace as Clone>::clone ](ns: &Namespace) -> (copy: Namespace)
    ensures
        namespace_bindings(copy) == namespace_bindings(*ns),
;

/// The opening tag of an element, as the XML reader reports it.
pub struct StartTag {
    /// The namespace name that the element's own name resolves to.
    pub uri: Option<String>,
    pub local_name: String,
    /// The prefix written before the local name.
    pub prefix: Option<String>,
    /// Every binding in scope at this element.
    pub scope: Namespace,
}

/// One step of reading a document.
pub enum Token {
    Start(StartTag),
    /// Any event other than an opening tag.
    Other,
    /// The document is malformed from here on.
    Failure,
}

/// Mathematical model of a [`StartTag`].
pub struct StartTagModel {
    pub uri: Option<Seq<char>>,
    pub local_name: Seq<char>,
    pub prefix: Option<Seq<char>>,
    /// The bindings in scope, from prefix to namespace name.
    pub bindings: Map<Seq<char>, Seq<char>>,
}

/// Mathematical model of a [`Token`].
pub enum TokenModel {
    Start(StartTagModel),
    Other,
    Failure,
}

impl View for StartTag {
    type V = StartTagModel;

    open spec fn view(&self) -> StartTagModel {
        StartTagModel {
            uri: text_option(self.uri),
            local_name: self.local_name@,
            prefix: text_option(self.prefix),
            bindings: namespace_bindings(self.scope),
        }
    }
}

impl View for Token {
    type V = TokenModel;

    open spec fn view(&self) -> TokenModel {
        match *self {
            Token::Start(tag) => TokenModel::Start(tag@),
            Token::Other => TokenModel::Other,
            Token::Failure => TokenModel::Failure,
        }
    }
}

/// The models of a run of tokens.
pub open spec fn token_models(tokens: Seq<Token>) -> Seq<TokenModel> {
    Seq::new(tokens.len(), |i: int| tokens[i]@)
}

/// The events that reading a document yields, in order, up to and including
/// the first failure or the end of the document.
pub uninterp spec fn xml_tokens(content: Seq<char>) -> Seq<TokenModel>;

/// Trusted: `xml::reader::EventReader::from_str` and the `Iterator` of its
/// `Events`, which ends after the first error or the end of the document.
/// Each event is kept as an opening tag, a failure, or neither. The events are
/// a function of the document alone.
#[verifier::external_body]
pub(crate) fn read_tokens(content: &str) -> (tokens: Vec<Token>)
    ensures
        token_models(tokens@) == xml_tokens(content@),
{
    xml::reader::EventReader::from_str(content).into_iter().map(|event| match event {
        Ok(xml::reader::XmlEvent::StartElement { name, namespace, .. }) => Token::Start(StartTag {
            uri: name.namespace,
            local_name: name.local_name,
            prefix: name.prefix,
            scope: namespace,
        }),
        Ok(_) => Token::Other,
        Err(_) => Token::Failure,
    }).collect()
}

/// Whether a tag opens the root of a schema: the element `schema` of the XML
/// Schema namespace.
pub open spec fn is_schema_root(tag: StartTagModel) -> bool {
    &&& tag.uri == Some(XML_SCHEMA_URI@)
    &&& tag.local_name == "schema"@
}

/// Index of the first schema root among `tokens` at or after `from`, if one
/// comes before any failure.
pub open spec fn schema_root_from(tokens: Seq<TokenModel>, from: int) -> Option<int>
    decreases tokens.len() - from,
{
    if from < 0 || from >= tokens.len() {
        None
    } else {
        match tokens[from] {
            TokenModel::Failure => None,
            TokenModel::Start(tag) => if is_schema_root(tag) {
                Some(from)
            } else {
                schema_root_from(tokens, from + 1)
            },
            TokenModel::Other => schema_root_from(tokens, from + 1),
        }
    }
}

/// Index of the first schema root among `tokens`, if one comes before any failure.
pub open spec fn schema_root(tokens: Seq<TokenModel>) -> Option<int> {
    schema_root_from(tokens, 0)
}

/// Tokens that are neither a schema root nor a failure do not decide.
proof fn lemma_schema_root_skip(tokens: Seq<TokenModel>, from: int, at: int)
    requires
        0 <= from <= at <= tokens.len(),
        forall|j: int|
            from <= j < at ==> match #[trigger] tokens[j] {
                TokenModel::Failure => false,
                TokenModel::Start(tag) => !is_schema_root(tag),
                TokenModel::Other => true,
            },
    ensures
        schema_root_from(tokens, from) == schema_root_from(tokens, at),
    decreases at - from,
{
    if from < at {
        lemma_schema_root_skip(tokens, from + 1, at);
    }
}

/// Mathematical model of an [`XsdContext`].
pub struct ContextModel {
    /// The caller's table from namespace name to Rust module path.
    pub modules: Seq<(Seq<char>, Seq<char>)>,
    /// The document's bindings from prefix to namespace name.
    pub bindings: Map<Seq<char>, Seq<char>>,
    /// The prefix bound to the XML Schema namespace; none where that
    /// namespace is the default one.
    pub schema_prefix: Option<Seq<char>>,
    /// Whether generation is inside the module that holds the named types.
    pub in_sub_module: bool,
    /// The attribute groups that the schema defines, for references to them.
    pub attribute_groups: Seq<GroupModel>,
}

impl ContextModel {
    /// The module that a prefix leads to: through the document's bindings to
    /// a namespace name, and through the caller's table to a module.
    pub open spec fn module_of(self, prefix: Seq<char>) -> Option<Seq<char>> {
        if self.bindings.contains_key(prefix) {
            lookup(self.modules, self.bindings[prefix])
        } else {
            None
        }
    }

    /// This model inside, or outside, the module of named types.
    pub open spec fn with_sub_module(self, inside: bool) -> ContextModel {
        ContextModel { in_sub_module: inside, ..self }
    }
}

/// The namespaces of one schema document and the caller's module table.
#[derive(Clone, Debug)]
pub struct XsdContext {
    module_namespace_mappings: Vec<(String, String)>,
    pub namespace: Namespace,
    xml_schema_prefix: Option<String>,
    is_in_sub_module: bool,
    attribute_groups: Vec<AttributeGroup>,
}

impl View for XsdContext {
    type V = ContextModel;

    closed spec fn view(&self) -> ContextModel {
        ContextModel {
            modules: table_model(self.module_namespace_mappings@),
            bindings: namespace_bindings(self.namespace),
            schema_prefix: text_option(self.xml_schema_prefix),
            in_sub_module: self.is_in_sub_module,
            attribute_groups: group_models(self.attribute_groups@),
        }
    }
}

/// The context that the schema root `tag` gives: no module table and no
/// attribute groups yet, and outside the module of named types.
pub open spec fn context_of_root(tag: StartTagModel) -> ContextModel {
    ContextModel {
        modules: Seq::empty(),
        bindings: tag.bindings,
        schema_prefix: tag.prefix,
        in_sub_module: false,
        attribute_groups: Seq::empty(),
    }
}

/// What a sequence of reader events yields: the context of the first schema
/// root, or the failure to find one.
pub open spec fn context_of_tokens(tokens: Seq<TokenModel>) -> Result<
    ContextModel,
    crate::error::Failure,
> {
    match schema_root(tokens) {
        Some(at) => Ok(context_of_root(tokens[at]->Start_0)),
        None => Err(failure(ErrorKind::SchemaNotFound, Seq::empty())),
    }
}

/// The model of a fallible context.
pub open spec fn context_outcome(r: Result<XsdContext, GenError>) -> Result<
    ContextModel,
    crate::error::Failure,
> {
    match r {
        Ok(context) => Ok(context@),
        Err(e) => Err(e@),
    }
}

impl XsdContext {
    /// Reads the context off a schema document: succeeds exactly where the
    /// document opens a schema root before it turns malformed.
    pub fn new(content: &str) -> (r: Result<XsdContext, GenError>)
        ensures
            context_outcome(r) == context_of_tokens(xml_tokens(content@)),
    {
        XsdContext::from_tokens(read_tokens(content))
    }

    /// Builds the context from the events of reading a document: that of the
    /// first schema root, unless a failure comes first or there is none.
    pub fn from_tokens(tokens: Vec<Token>) -> (r: Result<XsdContext, GenError>)
        ensures
            context_outcome(r) == context_of_tokens(token_models(tokens@)),
    {
        let ghost all = token_models(tokens@);
        let mut rest = tokens;
        let mut i: usize = 0;
        while i < rest.len()
            invariant
                i <= rest.len(),
                token_models(rest@) == all,
                all == token_models(tokens@),
                forall|j: int|
                    0 <= j < i ==> match #[trigger] all[j] {
                        TokenModel::Failure => false,
                        TokenModel::Start(tag) => !is_schema_root(tag),
                        TokenModel::Other => true,
                    },
            decreases rest.len() - i,
        {
            let found = match &rest[i] {
                Token::Failure => {
                    proof {
                        lemma_schema_root_skip(all, 0, i as int);
                    }
                    return Err(GenError::bare(ErrorKind::SchemaNotFound));
                },
                Token::Start(tag) => match &tag.uri {
                    Some(uri) => same_text(uri.as_str(), XML_SCHEMA_URI) && same_text(
                        tag.local_name.as_str(),
                        "schema",
                    ),
                    None => false,
                },
                Token::Other => false,
            };
            if found {
                proof {
                    lemma_schema_root_skip(all, 0, i as int);
                }
                let token = rest.remove(i);
                match token {
                    Token::Start(tag) => {
                        let empty: Vec<(String, String)> = Vec::new();
                        let no_groups: Vec<AttributeGroup> = Vec::new();
                        proof {
                            assert(table_model(empty@) =~= Seq::empty());
                            assert(group_models(no_groups@) =~= Seq::empty());
                        }
                        return Ok(
                            XsdContext {
                                module_namespace_mappings: empty,
                                namespace: tag.scope,
                                xml_schema_prefix: tag.prefix,
                                is_in_sub_module: false,
                                attribute_groups: no_groups,
                            },
                        );
                    },
                    _ => {
                        return Err(GenError::bare(ErrorKind::SchemaNotFound));
                    },
                }
            }
            i = i + 1;
        }
        proof {
            lemma_schema_root_skip(all, 0, i as int);
        }
        Err(GenError::bare(ErrorKind::SchemaNotFound))
    }

    /// The same context with the caller's table from namespace name to module.
    pub fn with_module_namespace_mappings(
        self,
        module_namespace_mappings: &Vec<(String, String)>,
    ) -> (r: XsdContext)
        ensures
            r@ == (ContextModel { modules: table_model(module_namespace_mappings@), ..self@ }),
    {
        let mut context = self;
        context.module_namespace_mappings = copy_table(module_namespace_mappings);
        context
    }

    /// The same context with the attribute groups that the schema defines.
    pub fn with_attribute_groups(self, attribute_groups: &Vec<AttributeGroup>) -> (r: XsdContext)
        ensures
            r@ == (ContextModel { attribute_groups: group_models(attribute_groups@), ..self@ }),
    {
        let mut context = self;
        context.attribute_groups = copy_groups(attribute_groups);
        context
    }

    /// The attribute groups that the schema defines.
    pub fn attribute_groups(&self) -> (groups: &Vec<AttributeGroup>)
        ensures
            group_models(groups@) == self@.attribute_groups,
    {
        &self.attribute_groups
    }

    /// Whether the XML Schema namespace is bound to a prefix in this document.
    pub fn has_xml_schema_prefix(&self) -> (r: bool)
        ensures
            r == self@.schema_prefix is Some,
    {
        self.xml_schema_prefix.is_some()
    }

    /// Whether `value` is the prefix bound to the XML Schema namespace.
    pub fn match_xml_schema_prefix(&self, value: &str) -> (r: bool)
        ensures
            r == (self@.schema_prefix == Some(value@)),
    {
        match &self.xml_schema_prefix {
            Some(prefix) => same_text(prefix.as_str(), value),
            None => false,
        }
    }

    /// The Rust module for the namespace that `prefix` is bound to.
    pub fn get_module(&self, prefix: &str) -> (module: Option<String>)
        ensures
            text_option(module) == self@.module_of(prefix@),
    {
        match namespace_get(&self.namespace, prefix) {
            Some(uri) => find_value(&self.module_namespace_mappings, uri.as_str()),
            None => None,
        }
    }

    /// Records whether generation is inside the module of named types.
    pub fn set_is_in_sub_module(&mut self, is_in_sub_module: bool)
        ensures
            final(self)@ == old(self)@.with_sub_module(is_in_sub_module),
    {
        self.is_in_sub_module = is_in_sub_module;
    }

    /// Whether generation is inside the module of named types.
    pub fn is_in_sub_module(&self) -> (r: bool)
        ensures
            r == self@.in_sub_module,
    {
        self.is_in_sub_module
    }

    /// A copy of this context inside, or outside, the module of named types.
    pub fn fork(&self, is_in_sub_module: bool) -> (r: XsdContext)
        ensures
            r@ == self@.with_sub_module(is_in_sub_module),
    {
        XsdContext {
            module_namespace_mappings: copy_table(&self.module_namespace_mappings),
            namespace: self.namespace.clone(),
            xml_schema_prefix: self.xml_schema_prefix.clone(),
            is_in_sub_module,
            attribute_groups: copy_groups(&self.attribute_groups),
        }
    }
}

} // verus!
