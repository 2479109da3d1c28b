//! Plain text out of a markup fragment.
use vstd::prelude::*;
use vstd::string::*;

verus! {

/// The views of a sequence of optional strings.
pub open spec fn option_views(v: Seq<Option<String>>) -> Seq<Option<Seq<char>>> {
    v.map_values(|x: Option<String>| match x {
        Some(s) => Some(s@),
        None => None,
    })
}

/// The text of the text-bearing nodes, in order; other nodes add nothing.
pub open spec fn text_of(nodes: Seq<Option<Seq<char>>>) -> Seq<char>
    decreases nodes.len(),
{
    if nodes.len() == 0 {
        Seq::empty()
    } else {
        match nodes.last() {
            Some(t) => text_of(nodes.drop_last()) + t,
            None => text_of(nodes.drop_last()),
        }
    }
}

/// The nodes of the tree that a markup fragment parses into, in document
/// order: a text node as its text, any other node as `None`.
pub uninterp spec fn fragment_nodes(raw: Seq<char>) -> Seq<Option<Seq<char>>>;

/// Relies on `scraper::Html::parse_fragment`, which parses any input (malformed
/// markup included) into a tree, and on ego_tree's `descendants`, which walks
/// that tree in document order.
#[verifier::external_body]
fn parse_fragment_nodes(raw: &str) -> (r: Vec<Option<String>>)
    ensures
        option_views(r@) == fragment_nodes(raw@),
{
    let html = scraper::Html::parse_fragment(raw);
    html.tree.root().descendants().map(|node| match node.value() {
        scraper::Node::Text(t) => Some(t.text.to_string()),
        _ => None,
    }).collect()
}

/// Concatenates the text of the text nodes, in the order given, and skips
/// every other node.
pub fn text_content(nodes: &Vec<Option<String>>) -> (r: String)
    ensures
        r@ == text_of(option_views(nodes@)),
{
    let mut out = String::new();
    let mut i: usize = 0;
    while i < nodes.len()
        invariant
            i <= nodes.len(),
            out@ == text_of(option_views(nodes@).take(i as int)),
        decreases nodes.len() - i,
    {
        assert(option_views(nodes@).take(i + 1).drop_last() =~= option_views(nodes@).take(
            i as int,
        ));
        match &nodes[i] {
            Some(t) => {
                out.append(t.as_str());
            },
            None => {},
        }
        i = i + 1;
    }
    assert(option_views(nodes@).take(nodes.len() as int) =~= option_views(nodes@));
    out
}

/// The text content of a markup fragment: the text of every text node in
/// document order, with all tags and attributes left out. Malformed markup is
/// read as well as it can be; this never fails.
pub fn strip_markup(raw: &str) -> (r: String)
    ensures
        r@ == text_of(fragment_nodes(raw@)),
{
    let nodes = parse_fragment_nodes(raw);
    text_content(&nodes)
}

} // verus!
