//! What a request to a model is made of: the pieces of context, the request
//! itself and the exchanges that came before it.

use vstd::prelude::*;

use crate::text::{is_cut_from, trimmed, trimming_leaves_the_inner_text};

verus! {

/// A part of a file that is shown for its references to some item.
#[derive(Debug)]
pub struct Excerpt {
    pub path: String,
    pub visible_text: String,
}

/// A piece of context for a request.
#[derive(Debug)]
pub enum RContext {
    /// A whole file.
    File { path: String, text: String },
    /// Sections of several files under one title.
    MultiBuf { title: String, excerpts: Vec<Excerpt> },
    /// A stored knowledge file.
    Knowledge { title: String, text: String },
    /// Changes that are already applied to the code.
    RecentChanges { diff: String },
    /// A shell command that was run, with its full output.
    Command { command: String, output: String },
}

/// A user's request with its context.
#[derive(Debug)]
pub struct HumanMessage {
    pub user_request: String,
    pub context: Vec<RContext>,
}

/// One side of an earlier exchange with the assistant.
#[derive(Debug)]
pub enum Exchange {
    HumanMessage(String),
    Response(String),
}

/// The characters of an [`Excerpt`].
#[verifier::ext_equal]
pub struct ExcerptView {
    pub path: Seq<char>,
    pub visible_text: Seq<char>,
}

/// The characters of an [`RContext`].
#[verifier::ext_equal]
pub enum RContextView {
    File { path: Seq<char>, text: Seq<char> },
    MultiBuf { title: Seq<char>, excerpts: Seq<ExcerptView> },
    Knowledge { title: Seq<char>, text: Seq<char> },
    RecentChanges { diff: Seq<char> },
    Command { command: Seq<char>, output: Seq<char> },
}

/// The characters of a [`HumanMessage`].
#[verifier::ext_equal]
pub struct HumanMessageView {
    pub user_request: Seq<char>,
    pub context: Seq<RContextView>,
}

/// The characters of an [`Exchange`].
#[verifier::ext_equal]
pub enum ExchangeView {
    HumanMessage(Seq<char>),
    Response(Seq<char>),
}

impl View for Excerpt {
    type V = ExcerptView;

    open spec fn view(&self) -> ExcerptView {
        ExcerptView { path: self.path@, visible_text: self.visible_text@ }
    }
}

impl DeepView for Excerpt {
    type V = ExcerptView;

    open spec fn deep_view(&self) -> ExcerptView {
        self@
    }
}

impl View for RContext {
    type V = RContextView;

    open spec fn view(&self) -> RContextView {
        match self {
            RContext::File { path, text } => RContextView::File { path: path@, text: text@ },
            RContext::MultiBuf { title, excerpts } => RContextView::MultiBuf {
                title: title@,
                excerpts: excerpts.deep_view(),
            },
            RContext::Knowledge { title, text } => RContextView::Knowledge {
                title: title@,
                text: text@,
            },
            RContext::RecentChanges { diff } => RContextView::RecentChanges { diff: diff@ },
            RContext::Command { command, output } => RContextView::Command {
                command: command@,
                output: output@,
            },
        }
    }
}

impl DeepView for RContext {
    type V = RContextView;

    open spec fn deep_view(&self) -> RContextView {
        self@
    }
}

impl View for HumanMessage {
    type V = HumanMessageView;

    open spec fn view(&self) -> HumanMessageView {
        HumanMessageView {
            user_request: self.user_request@,
            context: self.context.deep_view(),
        }
    }
}

impl View for Exchange {
    type V = ExchangeView;

    open spec fn view(&self) -> ExchangeView {
        match self {
            Exchange::HumanMessage(text) => ExchangeView::HumanMessage(text@),
            Exchange::Response(text) => ExchangeView::Response(text@),
        }
    }
}

impl DeepView for Exchange {
    type V = ExchangeView;

    open spec fn deep_view(&self) -> ExchangeView {
        self@
    }
}

impl ExcerptView {
    /// The excerpt as a `<section>` element on lines of its own.
    pub open spec fn rendered(self) -> Seq<char> {
        "<section file=\""@ + self.path + "\">\n"@ + trimmed(self.visible_text)
            + "\n</section>\n"@
    }
}

/// The excerpts one after another.
pub open spec fn rendered_excerpts(excerpts: Seq<ExcerptView>) -> Seq<char>
    decreases excerpts.len(),
{
    if excerpts.len() == 0 {
        Seq::empty()
    } else {
        rendered_excerpts(excerpts.drop_last()) + excerpts.last().rendered()
    }
}

impl RContextView {
    /// The piece of context as the element that a model reads.
    pub open spec fn rendered(self) -> Seq<char> {
        match self {
            RContextView::File { path, text } => {
                "<file path=\""@ + path + "\">\n"@ + trimmed(text) + "\n</file>\n"@
            },
            RContextView::MultiBuf { title, excerpts } => {
                "<excerpts title=\""@ + title + "\">\n"@ + rendered_excerpts(excerpts)
                    + "</excerpts>"@
            },
            RContextView::Knowledge { title, text } => {
                "<knowledge title=\""@ + title + "\">\n"@ + trimmed(text) + "\n</knowledge>\n"@
            },
            RContextView::RecentChanges { diff } => {
                "<recent_changes>\n"@ + trimmed(diff) + "\n</recent_changes>\n"@
            },
            RContextView::Command { command, output } => {
                "<command line=\""@ + command + "\">\n"@ + trimmed(output) + "\n</command>\n"@
            },
        }
    }
}

/// Appends one element: its opening tag up to the attribute, the attribute, the
/// trimmed body and the closing tag.
fn push_element(s: &mut String, open: &str, attribute: &str, body: &str, close: &str)
    ensures
        final(s)@ == old(s)@ + (open@ + attribute@ + "\">\n"@ + trimmed(body@) + close@),
{
    s.append(open);
    s.append(attribute);
    s.append("\">\n");
    s.append(body.trim());
    s.append(close);
    assert(s@ =~= old(s)@ + (open@ + attribute@ + "\">\n"@ + trimmed(body@) + close@));
}

impl Clone for Excerpt {
    fn clone(&self) -> (copy: Self)
        ensures
            copy@ == self@,
    {
        Excerpt { path: self.path.clone(), visible_text: self.visible_text.clone() }
    }
}

/// Copies a list of excerpts.
fn clone_excerpts(excerpts: &Vec<Excerpt>) -> (copy: Vec<Excerpt>)
    ensures
        copy.deep_view() == excerpts.deep_view(),
{
    let mut copy: Vec<Excerpt> = Vec::new();
    for i in 0..excerpts.len()
        invariant
            copy.len() == i,
            forall|j: int| 0 <= j < i ==> copy[j]@ == excerpts[j]@,
    {
        copy.push(excerpts[i].clone());
    }
    assert(copy.deep_view() =~= excerpts.deep_view());
    copy
}

impl Clone for RContext {
    fn clone(&self) -> (copy: Self)
        ensures
            copy@ == self@,
    {
        match self {
            RContext::File { path, text } => RContext::File {
                path: path.clone(),
                text: text.clone(),
            },
            RContext::MultiBuf { title, excerpts } => RContext::MultiBuf {
                title: title.clone(),
                excerpts: clone_excerpts(excerpts),
            },
            RContext::Knowledge { title, text } => RContext::Knowledge {
                title: title.clone(),
                text: text.clone(),
            },
            RContext::RecentChanges { diff } => RContext::RecentChanges { diff: diff.clone() },
            RContext::Command { command, output } => RContext::Command {
                command: command.clone(),
                output: output.clone(),
            },
        }
    }
}

impl RContext {
    /// Appends the element that stands for this piece of context.
    pub fn to_message(&self, s: &mut String)
        ensures
            final(s)@ == old(s)@ + self@.rendered(),
    {
        match self {
            RContext::File { path, text } => {
                push_element(s, "<file path=\"", path.as_str(), text.as_str(), "\n</file>\n");
            },
            RContext::MultiBuf { title, excerpts } => {
                let ghost all = excerpts.deep_view();
                let ghost head = "<excerpts title=\""@ + title@ + "\">\n"@;
                s.append("<excerpts title=\"");
                s.append(title.as_str());
                s.append("\">\n");
                assert(s@ =~= old(s)@ + (head + rendered_excerpts(all.take(0))));
                for i in 0..excerpts.len()
                    invariant
                        all == excerpts.deep_view(),
                        s@ == old(s)@ + (head + rendered_excerpts(all.take(i as int))),
                {
                    let ghost before = s@;
                    push_element(
                        s,
                        "<section file=\"",
                        excerpts[i].path.as_str(),
                        excerpts[i].visible_text.as_str(),
                        "\n</section>\n",
                    );
                    assert(all.take(i + 1).drop_last() =~= all.take(i as int));
                    assert(all.take(i + 1).last() == excerpts[i as int]@);
                    assert(s@ == before + excerpts[i as int]@.rendered());
                    assert(s@ =~= old(s)@ + (head + rendered_excerpts(all.take(i + 1))));
                }
                assert(all.take(excerpts.len() as int) =~= all);
                s.append("</excerpts>");
                assert(s@ =~= old(s)@ + self@.rendered());
            },
            RContext::Knowledge { title, text } => {
                push_element(
                    s,
                    "<knowledge title=\"",
                    title.as_str(),
                    text.as_str(),
                    "\n</knowledge>\n",
                );
            },
            RContext::RecentChanges { diff } => {
                s.append("<recent_changes>\n");
                s.append(diff.trim());
                s.append("\n</recent_changes>\n");
                assert(s@ =~= old(s)@ + self@.rendered());
            },
            RContext::Command { command, output } => {
                push_element(
                    s,
                    "<command line=\"",
                    command.as_str(),
                    output.as_str(),
                    "\n</command>\n",
                );
            },
        }
    }
}

/// Excerpts render one by one and in their order: what renders of a list is what
/// renders of its two halves, one after the other.
pub proof fn excerpts_render_in_order(first: Seq<ExcerptView>, rest: Seq<ExcerptView>)
    ensures
        rendered_excerpts(first + rest) == rendered_excerpts(first) + rendered_excerpts(rest),
    decreases rest.len(),
{
    if rest.len() == 0 {
        assert(first + rest =~= first);
        assert(rendered_excerpts(first) =~= rendered_excerpts(first) + rendered_excerpts(rest));
    } else {
        excerpts_render_in_order(first, rest.drop_last());
        assert((first + rest).drop_last() =~= first + rest.drop_last());
        assert(rendered_excerpts(first + rest) =~= rendered_excerpts(first) + rendered_excerpts(
            rest,
        ));
    }
}

/// A piece of context stands in one element with its path, title or command line in
/// the opening tag and its text inside, of which only the whitespace around it is cut
/// off.
pub proof fn texts_stand_in_their_elements(name: Seq<char>, text: Seq<char>)
    ensures
        exists|body: Seq<char>|
            {
                &&& #[trigger] is_cut_from(body, text)
                &&& (RContextView::File { path: name, text }).rendered() == "<file path=\""@ + name
                    + "\">\n"@ + body + "\n</file>\n"@
                &&& (RContextView::Knowledge { title: name, text }).rendered()
                    == "<knowledge title=\""@ + name + "\">\n"@ + body + "\n</knowledge>\n"@
                &&& (RContextView::RecentChanges { diff: text }).rendered()
                    == "<recent_changes>\n"@ + body + "\n</recent_changes>\n"@
                &&& (RContextView::Command { command: name, output: text }).rendered()
                    == "<command line=\""@ + name + "\">\n"@ + body + "\n</command>\n"@
                &&& (ExcerptView { path: name, visible_text: text }).rendered()
                    == "<section file=\""@ + name + "\">\n"@ + body + "\n</section>\n"@
            },
{
    trimming_leaves_the_inner_text(text, text);
    assert(is_cut_from(trimmed(text), text));
}

/// Excerpts stand together in one element under their title, and one more excerpt adds
/// its own section at their end.
pub proof fn excerpts_stand_in_one_element(
    title: Seq<char>,
    excerpts: Seq<ExcerptView>,
    next: ExcerptView,
)
    ensures
        (RContextView::MultiBuf { title, excerpts: Seq::empty() }).rendered()
            == "<excerpts title=\""@ + title + "\">\n"@ + "</excerpts>"@,
        exists|sections: Seq<char>|
            {
                &&& (RContextView::MultiBuf { title, excerpts }).rendered() == #[trigger] (
                "<excerpts title=\""@ + title + "\">\n"@ + sections + "</excerpts>"@)
                &&& (RContextView::MultiBuf { title, excerpts: excerpts.push(next) }).rendered()
                    == "<excerpts title=\""@ + title + "\">\n"@ + (sections + next.rendered())
                    + "</excerpts>"@
            },
{
    let none = Seq::<ExcerptView>::empty();
    assert(rendered_excerpts(none) == Seq::<char>::empty());
    assert((RContextView::MultiBuf { title, excerpts: none }).rendered() =~= "<excerpts title=\""@
        + title + "\">\n"@ + "</excerpts>"@);
    assert(excerpts.push(next).drop_last() =~= excerpts);
    let sections = rendered_excerpts(excerpts);
    assert((RContextView::MultiBuf { title, excerpts }).rendered() == "<excerpts title=\""@ + title
        + "\">\n"@ + sections + "</excerpts>"@);
}

/// The views show every part of what they are views of.
pub proof fn context_views_show_every_part(
    excerpt: Excerpt,
    context: RContext,
    message: HumanMessage,
    exchange: Exchange,
)
    ensures
        excerpt@.path == excerpt.path@ && excerpt@.visible_text == excerpt.visible_text@,
        context matches RContext::File { path, text } ==> context@ == (RContextView::File {
            path: path@,
            text: text@,
        }),
        context matches RContext::MultiBuf { title, excerpts } ==> {
            &&& context@ is MultiBuf
            &&& context@->MultiBuf_title == title@
            &&& context@->excerpts.len() == excerpts@.len()
            &&& forall|i: int|
                0 <= i < excerpts@.len() ==> #[trigger] context@->excerpts[i] == excerpts@[i]@
        },
        context matches RContext::Knowledge { title, text } ==> context@ == (
        RContextView::Knowledge { title: title@, text: text@ }),
        context matches RContext::RecentChanges { diff } ==> context@ == (
        RContextView::RecentChanges { diff: diff@ }),
        context matches RContext::Command { command, output } ==> context@ == (
        RContextView::Command { command: command@, output: output@ }),
        message@.user_request == message.user_request@,
        message@.context.len() == message.context@.len(),
        forall|i: int|
            0 <= i < message.context@.len() ==> #[trigger] message@.context[i]
                == message.context@[i]@,
        exchange matches Exchange::HumanMessage(text) ==> exchange@
            == ExchangeView::HumanMessage(text@),
        exchange matches Exchange::Response(text) ==> exchange@ == ExchangeView::Response(text@),
{
}

} // verus!
