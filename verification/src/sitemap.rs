//! From the text of a sitemap to the page URLs that it lists.
//!
//! `roxmltree` parses the document. What it found is copied into plain
//! [`XmlNode`] records, one per node in document order, and the rule that
//! picks the page URLs out of them is verified here.

use vstd::prelude::*;

verus! {

/// The error that `roxmltree` reports for a document it cannot parse.
#[verifier::external_type_specification]
#[verifier::external_body]
pub struct ExXmlError(roxmltree::Error);

/// One node of a parsed document, reduced to what the extraction reads.
#[derive(Debug)]
pub struct XmlNode {
    /// The local part of the tag name, without a namespace prefix. Empty for
    /// a node that is not an element.
    pub local_name: String,
    /// The text of each child node, in order: for a text node or a comment
    /// its own text, for an element the text it starts with. `None` for a
    /// child that has neither.
    pub child_texts: Vec<Option<String>>,
}

/// The mathematical content of an [`XmlNode`].
pub struct XmlNodeView {
    pub local_name: Seq<char>,
    pub child_texts: Seq<Option<Seq<char>>>,
}

impl View for XmlNode {
    type V = XmlNodeView;

    open spec fn view(&self) -> XmlNodeView {
        XmlNodeView {
            local_name: self.local_name@,
            child_texts: self.child_texts.deep_view(),
        }
    }
}

impl DeepView for XmlNode {
    type V = XmlNodeView;

    open spec fn deep_view(&self) -> XmlNodeView {
        self@
    }
}

/// Why a sitemap yields no list of pages.
#[derive(Clone, Copy, Debug, PartialEq, Eq, Structural)]
pub enum SitemapError {
    /// The text is not a well-formed XML document.
    MalformedXml,
}

/// The nodes of the document that `text` holds, the root node first and then
/// all others in document order; `None` where `text` is not a document that
/// `roxmltree` accepts.
pub uninterp spec fn document_nodes(text: Seq<char>) -> Option<Seq<XmlNodeView>>;

/// The local name of the elements that hold a page URL.
pub open spec fn loc_tag() -> Seq<char> {
    seq!['l', 'o', 'c']
}

/// The first text among `texts` that is present and not empty.
pub open spec fn first_text(texts: Seq<Option<Seq<char>>>) -> Option<Seq<char>>
    decreases texts.len(),
{
    if texts.len() == 0 {
        None
    } else if texts[0] is Some && texts[0].unwrap().len() > 0 {
        texts[0]
    } else {
        first_text(texts.drop_first())
    }
}

/// The page URL that a node contributes: a `loc` element gives the first
/// non-empty text among its children; any other node, and a `loc` element
/// without such a child, gives none.
pub open spec fn page_url(node: XmlNodeView) -> Option<Seq<char>> {
    if node.local_name == loc_tag() {
        first_text(node.child_texts)
    } else {
        None
    }
}

/// The page URLs of a document: what each node contributes, in document
/// order.
pub open spec fn page_urls(nodes: Seq<XmlNodeView>) -> Seq<Seq<char>> {
    nodes.filter_map(|node: XmlNodeView| page_url(node))
}

/// A node is a page entry when it contributes a page URL.
pub open spec fn is_page_entry(node: XmlNodeView) -> bool {
    page_url(node) is Some
}

/// A document with N page entries has exactly N page URLs: the URL of each
/// entry, in the order of the entries. Nodes that are no page entry add
/// nothing.
pub proof fn lemma_page_urls_are_entries(nodes: Seq<XmlNodeView>)
    ensures
        page_urls(nodes) == nodes.filter(|node: XmlNodeView| is_page_entry(node)).map_values(
            |node: XmlNodeView| page_url(node).unwrap(),
        ),
        page_urls(nodes).len() == nodes.filter(|node: XmlNodeView| is_page_entry(node)).len(),
    decreases nodes.len(),
{
    reveal(Seq::filter);
    let entries = nodes.filter(|node: XmlNodeView| is_page_entry(node));
    let urls = entries.map_values(|node: XmlNodeView| page_url(node).unwrap());
    if nodes.len() > 0 {
        lemma_page_urls_are_entries(nodes.drop_last());
    }
    assert(page_urls(nodes) =~= urls);
}

/// The page URLs of two runs of nodes, one after the other, are the page
/// URLs of the first followed by those of the second.
pub proof fn lemma_page_urls_concat(first: Seq<XmlNodeView>, second: Seq<XmlNodeView>)
    ensures
        page_urls(first + second) == page_urls(first) + page_urls(second),
    decreases second.len(),
{
    if second.len() == 0 {
        assert(first + second =~= first);
        assert(page_urls(first) + page_urls(second) =~= page_urls(first));
    } else {
        lemma_page_urls_concat(first, second.drop_last());
        assert((first + second).drop_last() =~= first + second.drop_last());
        assert((first + second).last() == second.last());
        assert(page_urls(first + second) =~= page_urls(first) + page_urls(second));
    }
}

/// Calls `roxmltree::Document::parse` on `text` and copies each node that
/// `Document::descendants` yields into an [`XmlNode`]: the local name from
/// `Node::tag_name`, and `Node::text` of each node under `Node::children`.
///
/// Trusted: that whether the parser accepts and the nodes it builds depend on
/// `text` alone, which is what gives [`document_nodes`] its meaning. Nothing
/// is claimed about which texts are accepted or what the nodes hold.
#[verifier::external_body]
fn parse_nodes(text: &str) -> (parsed: Result<Vec<XmlNode>, roxmltree::Error>)
    ensures
        parsed is Ok <==> document_nodes(text@) is Some,
        parsed matches Ok(nodes) ==> document_nodes(text@) == Some(nodes.deep_view()),
{
    let document = roxmltree::Document::parse(text)?;
    Ok(
        document.descendants().map(
            |node| XmlNode {
                local_name: node.tag_name().name().to_owned(),
                child_texts: node.children().map(|child| child.text().map(|t| t.to_owned())).collect(),
            },
        ).collect(),
    )
}

/// The first text among `texts` that is present and not empty, copied.
fn first_nonempty(texts: &Vec<Option<String>>) -> (text: Option<String>)
    ensures
        text.deep_view() == first_text(texts.deep_view()),
{
    let mut i: usize = 0;
    proof {
        assert(texts.deep_view().skip(0) =~= texts.deep_view());
    }
    while i < texts.len()
        invariant
            i <= texts.len(),
            first_text(texts.deep_view()) == first_text(texts.deep_view().skip(i as int)),
        decreases texts.len() - i,
    {
        proof {
            let rest = texts.deep_view().skip(i as int);
            assert(rest[0] == texts[i as int].deep_view());
            assert(rest.drop_first() =~= texts.deep_view().skip(i + 1));
        }
        match &texts[i] {
            Some(t) => {
                if !t.as_str().is_empty() {
                    return Some(t.clone());
                }
            },
            None => {},
        }
        i = i + 1;
    }
    None
}

/// Picks the page URLs out of the nodes of a parsed sitemap.
///
/// There is one URL for each `loc` element that has a child with non-empty
/// text, in document order. The tag is matched by its local name, whatever
/// its namespace. An element without such a child is left out.
pub fn extract_urls(nodes: &Vec<XmlNode>) -> (urls: Vec<String>)
    ensures
        urls.deep_view() == page_urls(nodes.deep_view()),
{
    let loc = "loc".to_owned();
    proof {
        reveal_strlit("loc");
        assert(loc@ =~= loc_tag());
    }
    let mut urls: Vec<String> = Vec::new();
    let mut i: usize = 0;
    while i < nodes.len()
        invariant
            i <= nodes.len(),
            loc@ == loc_tag(),
            urls.deep_view() == page_urls(nodes.deep_view().take(i as int)),
        decreases nodes.len() - i,
    {
        let ghost before = urls.deep_view();
        proof {
            nodes.deep_view().lemma_filter_map_take_succ(|node: XmlNodeView| page_url(node), i as int);
        }
        if nodes[i].local_name == loc {
            match first_nonempty(&nodes[i].child_texts) {
                Some(url) => {
                    urls.push(url);
                    assert(urls.deep_view() =~= before + seq![url@]);
                },
                None => {},
            }
        }
        i = i + 1;
    }
    proof {
        assert(nodes.deep_view().take(nodes.len() as int) =~= nodes.deep_view());
    }
    urls
}

/// Reads a sitemap: the page URLs of the document that `text` holds, or
/// [`SitemapError::MalformedXml`] where `text` is no well-formed document.
/// A well-formed document without any page entry gives an empty list.
pub fn sitemap_urls(text: &str) -> (listed: Result<Vec<String>, SitemapError>)
    ensures
        match document_nodes(text@) {
            Some(nodes) => listed matches Ok(urls) && urls.deep_view() == page_urls(nodes),
            None => listed == Err::<Vec<String>, SitemapError>(SitemapError::MalformedXml),
        },
{
    match parse_nodes(text) {
        Ok(nodes) => Ok(extract_urls(&nodes)),
        Err(_) => Err(SitemapError::MalformedXml),
    }
}

} // verus!
