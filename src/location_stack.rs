use vstd::prelude::*;

use crate::static_location::StaticLocation;
use crate::text::{decimal, push_decimal, push_str};

verus! {

/// One link of a location stack, as it is listed: the link's rendered form
/// and the place where it was recorded.
pub struct StackLink {
    text: String,
    location: StaticLocation,
}

impl StackLink {
    /// The link's rendered form.
    pub closed spec fn spec_text(&self) -> Seq<char> {
        self.text@
    }

    /// Where the link was recorded.
    pub closed spec fn spec_location(&self) -> StaticLocation {
        self.location
    }

    pub fn new(text: String, location: StaticLocation) -> (r: Self)
        ensures
            r.spec_text() == text@,
            r.spec_location() == location,
    {
        StackLink { text, location }
    }
}

/// One listed link: `height: text at file:line:column`.
pub open spec fn link_line(height: nat, link: StackLink) -> Seq<char> {
    decimal(height) + seq![':', ' '] + link.spec_text() + seq![' ', 'a', 't', ' ']
        + link.spec_location().spec_text()
}

/// The listed links, numbered from zero, joined by newlines.
pub open spec fn link_lines(links: Seq<StackLink>) -> Seq<char>
    decreases links.len(),
{
    if links.len() == 0 {
        seq![]
    } else if links.len() == 1 {
        link_line(0, links[0])
    } else {
        link_lines(links.drop_last()) + seq!['\n'] + link_line(
            (links.len() - 1) as nat,
            links.last(),
        )
    }
}

/// The links that are listed: all of them, or in a summary only the top
/// one and the deepest one.
pub open spec fn listed_links(links: Seq<StackLink>, summary: bool) -> Seq<StackLink> {
    if summary && links.len() > 1 {
        seq![links[0], links.last()]
    } else {
        links
    }
}

/// The rendered location stack: the listed links, then, when the deepest
/// link has an underlying source, one more numbered line with its message.
pub open spec fn stack_text(links: Seq<StackLink>, source: Option<Seq<char>>, summary: bool) -> Seq<
    char,
> {
    let listed = listed_links(links, summary);
    link_lines(listed) + match source {
        None => seq![],
        Some(message) => seq!['\n'] + decimal(listed.len()) + seq![':', ' '] + message,
    }
}

fn push_link_line(out: &mut String, height: usize, link: &StackLink)
    ensures
        final(out)@ == old(out)@ + link_line(height as nat, *link),
{
    proof {
        reveal_strlit(": ");
        reveal_strlit(" at ");
    }
    let ghost start = out@;
    push_decimal(out, height as u64);
    push_str(out, ": ");
    push_str(out, link.text.as_str());
    push_str(out, " at ");
    link.location.write_text(out);
    assert(out@ =~= start + link_line(height as nat, *link));
}

/// Renders a location stack, top link first. `links` runs from the top of
/// the stack to its deepest link, and `source` is the message of the
/// deepest link's underlying source, if it has one. A summary lists only the
/// top link and the deepest one.
pub fn format_location_stack(links: &Vec<StackLink>, source: Option<&str>, summary: bool) -> (r:
    String)
    requires
        links@.len() >= 1,
    ensures
        r@ == stack_text(
            links@,
            match source {
                None => None,
                Some(s) => Some(s@),
            },
            summary,
        ),
{
    let n = links.len();
    let ghost all = links@;
    let mut out = String::new();
    push_link_line(&mut out, 0, &links[0]);
    assert(out@ =~= link_lines(all.take(1)));
    let mut height: usize = 1;
    if summary {
        if n > 1 {
            proof {
                reveal_strlit("\n");
            }
            push_str(&mut out, "\n");
            push_link_line(&mut out, 1, &links[n - 1]);
            height = 2;
            let ghost listed = listed_links(all, summary);
            assert(listed.drop_last() =~= seq![all[0]]);
            assert(link_lines(seq![all[0]]) == link_line(0, all[0]));
            assert(out@ =~= link_lines(listed));
        }
    } else {
        while height < n
            invariant
                1 <= height <= n,
                n == all.len(),
                all == links@,
                out@ == link_lines(all.take(height as int)),
            decreases n - height,
        {
            proof {
                reveal_strlit("\n");
            }
            push_str(&mut out, "\n");
            push_link_line(&mut out, height, &links[height]);
            proof {
                let next = all.take(height + 1);
                assert(next.drop_last() =~= all.take(height as int));
                assert(next.last() == all[height as int]);
                assert(out@ =~= link_lines(next));
            }
            height = height + 1;
        }
        assert(all.take(n as int) =~= all);
    }
    let ghost listed = listed_links(all, summary);
    assert(out@ == link_lines(listed));
    assert(height == listed.len());
    match source {
        None => {
            assert(out@ =~= stack_text(all, None, summary));
        },
        Some(message) => {
            proof {
                reveal_strlit("\n");
                reveal_strlit(": ");
            }
            push_str(&mut out, "\n");
            push_decimal(&mut out, height as u64);
            push_str(&mut out, ": ");
            push_str(&mut out, message);
            assert(out@ =~= stack_text(all, Some(message@), summary));
        },
    }
    out
}

} // verus!
