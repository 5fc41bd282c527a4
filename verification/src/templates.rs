//! Announcement templates: a message with placeholders for the resource's
//! name and for the mention of the role to notify.

use crate::text::{
    alien, contains, decimal_nat, lemma_replace_all_adds_none, lemma_replace_all_removes,
    occurs_at, push_decimal, replace, replace_all,
};
use vstd::prelude::*;

verus! {

/// Stands for the resource's display name.
pub const TEMPLATE_RESOURCE_NAME: &'static str = "%%RESOURCE%%";

/// Stands for the mention of the role to notify.
pub const TEMPLATE_ROLE_PING: &'static str = "%%ROLE%%";

/// Takes the place of the mention where no role is configured.
pub const ROLE_FALLBACK_STRING: &'static str = "people";

/// The mention of a role, or the fallback word where there is none.
pub open spec fn role_mention(role_id: Option<u64>) -> Seq<char> {
    match role_id {
        Some(id) => "<@&"@ + decimal_nat(id as nat) + ">"@,
        None => ROLE_FALLBACK_STRING@,
    }
}

/// The announcement that a template stands for: every resource placeholder
/// replaced by the name, then every role placeholder by the mention.
pub open spec fn substitute(message: Seq<char>, resource_name: Seq<char>, role_id: Option<u64>) -> Seq<
    char,
> {
    replace_all(
        replace_all(message, TEMPLATE_RESOURCE_NAME@, resource_name),
        TEMPLATE_ROLE_PING@,
        role_mention(role_id),
    )
}

/// Fills in a template.
pub fn replace_templates(message: &str, resource_name: &str, role_id: &Option<u64>) -> (out: String)
    ensures
        out@ == substitute(message@, resource_name@, *role_id),
{
    let role_ping = match role_id {
        Some(id) => {
            let mut mention = String::from_str("<@&");
            push_decimal(&mut mention, *id);
            mention.append(">");
            mention
        },
        None => String::from_str(ROLE_FALLBACK_STRING),
    };
    let named = replace(message, TEMPLATE_RESOURCE_NAME, resource_name);
    replace(named.as_str(), TEMPLATE_ROLE_PING, role_ping.as_str())
}

/// A decimal numeral holds digits only.
proof fn lemma_decimal_has_no_percent(n: nat)
    ensures
        decimal_nat(n).len() > 0,
        forall|k: int| 0 <= k < decimal_nat(n).len() ==> decimal_nat(n)[k] != '%',
    decreases n,
{
    if n >= 10 {
        lemma_decimal_has_no_percent(n / 10);
    }
}

/// The mention of a role, and the fallback word, hold no percent sign and
/// begin with a character that stands in neither placeholder.
proof fn lemma_mention_is_alien(role_id: Option<u64>)
    ensures
        alien(role_mention(role_id), TEMPLATE_RESOURCE_NAME@),
        alien(role_mention(role_id), TEMPLATE_ROLE_PING@),
{
    reveal_strlit("%%RESOURCE%%");
    reveal_strlit("%%ROLE%%");
    reveal_strlit("people");
    reveal_strlit("<@&");
    reveal_strlit(">");
    let mention = role_mention(role_id);
    let resource = TEMPLATE_RESOURCE_NAME@;
    let role = TEMPLATE_ROLE_PING@;
    match role_id {
        Some(id) => {
            lemma_decimal_has_no_percent(id as nat);
            assert(mention[0] == '<');
        },
        None => {
            assert(mention[0] == 'p');
        },
    }
    assert forall|k: int| 0 <= k < mention.len() implies mention[k] != '%' by {}
    assert(!contains(resource, mention)) by {
        if contains(resource, mention) {
            let at = choose|at: int| occurs_at(resource, mention, at);
            assert(resource.subrange(at, at + mention.len())[0] == mention[0]);
        }
    }
    assert(!contains(role, mention)) by {
        if contains(role, mention) {
            let at = choose|at: int| occurs_at(role, mention, at);
            assert(role.subrange(at, at + mention.len())[0] == mention[0]);
        }
    }
}

/// No announcement holds a role placeholder, whatever the template, the
/// name and the role.
pub proof fn lemma_no_role_placeholder_left(
    message: Seq<char>,
    resource_name: Seq<char>,
    role_id: Option<u64>,
)
    ensures
        !contains(substitute(message, resource_name, role_id), TEMPLATE_ROLE_PING@),
{
    lemma_mention_is_alien(role_id);
    lemma_replace_all_removes(
        replace_all(message, TEMPLATE_RESOURCE_NAME@, resource_name),
        TEMPLATE_ROLE_PING@,
        role_mention(role_id),
    );
}

/// No announcement holds a resource placeholder, provided that the name
/// holds no percent sign and is not itself a part of the placeholder. (A
/// name that is, such as `RESOURCE` or the empty name, can be completed
/// to a placeholder by the text around it.)
pub proof fn lemma_no_resource_placeholder_left(
    message: Seq<char>,
    resource_name: Seq<char>,
    role_id: Option<u64>,
)
    requires
        !resource_name.contains('%'),
        !contains(TEMPLATE_RESOURCE_NAME@, resource_name),
    ensures
        !contains(substitute(message, resource_name, role_id), TEMPLATE_RESOURCE_NAME@),
{
    reveal_strlit("%%RESOURCE%%");
    reveal_strlit("%%ROLE%%");
    let resource = TEMPLATE_RESOURCE_NAME@;
    assert forall|k: int| 0 <= k < resource_name.len() implies resource_name[k] != '%' by {
        assert(resource_name.contains(resource_name[k]));
    }
    assert(alien(resource_name, resource));
    lemma_replace_all_removes(message, resource, resource_name);
    lemma_mention_is_alien(role_id);
    lemma_replace_all_adds_none(
        replace_all(message, resource, resource_name),
        TEMPLATE_ROLE_PING@,
        role_mention(role_id),
        resource,
    );
}

} // verus!
