//! The repository: servers, secrets and the links between them, held in
//! memory. Every operation is stated over `StorageModel`, the mathematical
//! value of the store.

use crate::clock::{now, Timestamp};
use crate::models::{Secret, SecretView, Server, ServerSecret, ServerView};
use crate::order::{
    is_total, is_transitive, lemma_filter_none, lemma_insert_index_unique,
    lemma_stable_sort_contains, lemma_stable_sort_filter, lemma_stable_sort_len,
    lemma_stable_sort_sorted, sorted_by, stable_sort,
};
use crate::text::{lemma_bytes_le_total, lemma_bytes_le_transitive, str_le, text_le};
use vstd::prelude::*;
use vstd::string::*;

verus! {

/// Servers in ascending order of their names.
pub open spec fn server_name_le() -> spec_fn(ServerView, ServerView) -> bool {
    |a: ServerView, b: ServerView| text_le(a.name, b.name)
}

/// Secrets in ascending order of their names.
pub open spec fn secret_name_le() -> spec_fn(SecretView, SecretView) -> bool {
    |a: SecretView, b: SecretView| text_le(a.name, b.name)
}

/// Links in ascending order of their priorities.
pub open spec fn priority_le() -> spec_fn(ServerSecret, ServerSecret) -> bool {
    |a: ServerSecret, b: ServerSecret| a.priority <= b.priority
}

pub open spec fn server_is_not(id: u128) -> spec_fn(ServerView) -> bool {
    |s: ServerView| s.id != id
}

pub open spec fn secret_is_not(id: u128) -> spec_fn(SecretView) -> bool {
    |s: SecretView| s.id != id
}

pub open spec fn link_of_server(id: u128) -> spec_fn(ServerSecret) -> bool {
    |l: ServerSecret| l.server_id == id
}

pub open spec fn link_not_of_server(id: u128) -> spec_fn(ServerSecret) -> bool {
    |l: ServerSecret| l.server_id != id
}

pub open spec fn link_not_of_secret(id: u128) -> spec_fn(ServerSecret) -> bool {
    |l: ServerSecret| l.secret_id != id
}

/// Every link but the one between the given server and secret.
pub open spec fn link_is_not(server_id: u128, secret_id: u128) -> spec_fn(ServerSecret) -> bool {
    |l: ServerSecret| l.server_id != server_id || l.secret_id != secret_id
}

/// The link between the given server and secret.
pub open spec fn link_is(server_id: u128, secret_id: u128) -> spec_fn(ServerSecret) -> bool {
    |l: ServerSecret| l.server_id == server_id && l.secret_id == secret_id
}

/// The place of the first server with the given identifier; the length of `s`
/// where there is none.
pub open spec fn server_index(s: Seq<ServerView>, id: u128) -> int
    decreases s.len(),
{
    if s.len() == 0 {
        0
    } else if s[0].id == id {
        0
    } else {
        1 + server_index(s.drop_first(), id)
    }
}

/// The place of the first secret with the given identifier; the length of `s`
/// where there is none.
pub open spec fn secret_index(s: Seq<SecretView>, id: u128) -> int
    decreases s.len(),
{
    if s.len() == 0 {
        0
    } else if s[0].id == id {
        0
    } else {
        1 + secret_index(s.drop_first(), id)
    }
}

/// The secrets that `links` point to, in the order of the links. A link to a
/// secret that is not there gives nothing.
pub open spec fn linked_secrets(links: Seq<ServerSecret>, secrets: Seq<SecretView>) -> Seq<
    SecretView,
>
    decreases links.len(),
{
    if links.len() == 0 {
        Seq::empty()
    } else {
        let rest = linked_secrets(links.drop_last(), secrets);
        let i = secret_index(secrets, links.last().secret_id);
        if i < secrets.len() {
            rest.push(secrets[i])
        } else {
            rest
        }
    }
}

/// Whether two links join the same server and secret.
pub open spec fn same_pair(a: ServerSecret, b: ServerSecret) -> bool {
    a.server_id == b.server_id && a.secret_id == b.secret_id
}

/// No two of the links join the same server and secret.
pub open spec fn links_unique(s: Seq<ServerSecret>) -> bool {
    forall|i: int, j: int| 0 <= i < j < s.len() ==> !same_pair(#[trigger] s[i], #[trigger] s[j])
}

/// The mathematical value of the store.
pub struct StorageModel {
    pub servers: Seq<ServerView>,
    pub secrets: Seq<SecretView>,
    pub links: Seq<ServerSecret>,
}

impl StorageModel {
    /// No two links join the same server and secret.
    pub open spec fn wf(self) -> bool {
        links_unique(self.links)
    }

    pub open spec fn empty() -> StorageModel {
        StorageModel { servers: Seq::empty(), secrets: Seq::empty(), links: Seq::empty() }
    }

    pub open spec fn with_server(self, s: ServerView) -> StorageModel {
        StorageModel { servers: self.servers.push(s), ..self }
    }

    pub open spec fn with_secret(self, s: SecretView) -> StorageModel {
        StorageModel { secrets: self.secrets.push(s), ..self }
    }

    /// The first server with the given identifier.
    pub open spec fn server(self, id: u128) -> Option<ServerView> {
        let i = server_index(self.servers, id);
        if i < self.servers.len() {
            Some(self.servers[i])
        } else {
            None
        }
    }

    /// The first secret with the given identifier.
    pub open spec fn secret(self, id: u128) -> Option<SecretView> {
        let i = secret_index(self.secrets, id);
        if i < self.secrets.len() {
            Some(self.secrets[i])
        } else {
            None
        }
    }

    /// The servers by name; servers of one name in the order they were stored.
    pub open spec fn listed_servers(self) -> Seq<ServerView> {
        stable_sort(self.servers, server_name_le())
    }

    /// The secrets by name; secrets of one name in the order they were stored.
    pub open spec fn listed_secrets(self) -> Seq<SecretView> {
        stable_sort(self.secrets, secret_name_le())
    }

    /// The store without the servers of the given identifier and without
    /// their links.
    pub open spec fn without_server(self, id: u128) -> StorageModel {
        StorageModel {
            servers: self.servers.filter(server_is_not(id)),
            links: self.links.filter(link_not_of_server(id)),
            ..self
        }
    }

    /// The store without the secrets of the given identifier and without the
    /// links to them.
    pub open spec fn without_secret(self, id: u128) -> StorageModel {
        StorageModel {
            secrets: self.secrets.filter(secret_is_not(id)),
            links: self.links.filter(link_not_of_secret(id)),
            ..self
        }
    }

    /// The store in which the first server with the identifier of `s` holds
    /// the fields of `s` and was last updated at `at`; the same store where
    /// there is no such server.
    pub open spec fn with_updated_server(self, s: ServerView, at: Timestamp) -> StorageModel {
        let i = server_index(self.servers, s.id);
        if i < self.servers.len() {
            StorageModel {
                servers: self.servers.update(i, ServerView { updated_at: at, ..s }),
                ..self
            }
        } else {
            self
        }
    }

    /// The same for a secret.
    pub open spec fn with_updated_secret(self, s: SecretView, at: Timestamp) -> StorageModel {
        let i = secret_index(self.secrets, s.id);
        if i < self.secrets.len() {
            StorageModel {
                secrets: self.secrets.update(i, SecretView { updated_at: at, ..s }),
                ..self
            }
        } else {
            self
        }
    }

    /// The store with the link `l`, in place of any link between the same
    /// server and secret.
    pub open spec fn with_link(self, l: ServerSecret) -> StorageModel {
        StorageModel {
            links: self.links.filter(link_is_not(l.server_id, l.secret_id)).push(l),
            ..self
        }
    }

    /// The store without the link between the given server and secret.
    pub open spec fn without_link(self, server_id: u128, secret_id: u128) -> StorageModel {
        StorageModel { links: self.links.filter(link_is_not(server_id, secret_id)), ..self }
    }

    /// The links of a server by priority, the lowest first; links of one
    /// priority in the order they were made.
    pub open spec fn links_for(self, server_id: u128) -> Seq<ServerSecret> {
        stable_sort(self.links.filter(link_of_server(server_id)), priority_le())
    }

    /// The secrets linked to a server, by priority.
    pub open spec fn secrets_for(self, server_id: u128) -> Seq<SecretView> {
        linked_secrets(self.links_for(server_id), self.secrets)
    }
}

pub proof fn lemma_text_le_order()
    ensures
        is_total(server_name_le()),
        is_transitive(server_name_le()),
        is_total(secret_name_le()),
        is_transitive(secret_name_le()),
        is_total(priority_le()),
        is_transitive(priority_le()),
{
    let f = server_name_le();
    assert forall|a: ServerView, b: ServerView| #[trigger] f(a, b) || f(b, a) by {
        lemma_bytes_le_total(vstd::utf8::encode_utf8(a.name), vstd::utf8::encode_utf8(b.name));
    }
    assert forall|a: ServerView, b: ServerView, c: ServerView| #[trigger]
        f(a, b) && #[trigger] f(b, c) implies f(a, c) by {
        lemma_bytes_le_transitive(
            vstd::utf8::encode_utf8(a.name),
            vstd::utf8::encode_utf8(b.name),
            vstd::utf8::encode_utf8(c.name),
        );
    }
    let g = secret_name_le();
    assert forall|a: SecretView, b: SecretView| #[trigger] g(a, b) || g(b, a) by {
        lemma_bytes_le_total(vstd::utf8::encode_utf8(a.name), vstd::utf8::encode_utf8(b.name));
    }
    assert forall|a: SecretView, b: SecretView, c: SecretView| #[trigger]
        g(a, b) && #[trigger] g(b, c) implies g(a, c) by {
        lemma_bytes_le_transitive(
            vstd::utf8::encode_utf8(a.name),
            vstd::utf8::encode_utf8(b.name),
            vstd::utf8::encode_utf8(c.name),
        );
    }
}

/// A server with the given identifier stands at `i` and none stands before it.
pub proof fn lemma_server_index_found(s: Seq<ServerView>, id: u128, i: int)
    requires
        0 <= i < s.len(),
        s[i].id == id,
        forall|j: int| 0 <= j < i ==> (#[trigger] s[j]).id != id,
    ensures
        server_index(s, id) == i,
    decreases i,
{
    if i > 0 {
        let d = s.drop_first();
        assert(s[0].id != id);
        assert forall|j: int| 0 <= j < i - 1 implies (#[trigger] d[j]).id != id by {
            assert(d[j] == s[j + 1]);
        }
        lemma_server_index_found(d, id, i - 1);
    }
}

pub proof fn lemma_server_index_absent(s: Seq<ServerView>, id: u128)
    requires
        forall|j: int| 0 <= j < s.len() ==> (#[trigger] s[j]).id != id,
    ensures
        server_index(s, id) == s.len(),
    decreases s.len(),
{
    if s.len() > 0 {
        let d = s.drop_first();
        assert(s[0].id != id);
        assert forall|j: int| 0 <= j < d.len() implies (#[trigger] d[j]).id != id by {
            assert(d[j] == s[j + 1]);
        }
        lemma_server_index_absent(d, id);
    }
}

/// Where the index points, a server with the identifier stands, and none
/// before it.
pub proof fn lemma_server_index(s: Seq<ServerView>, id: u128)
    ensures
        0 <= server_index(s, id) <= s.len(),
        server_index(s, id) < s.len() ==> s[server_index(s, id)].id == id,
        forall|j: int| 0 <= j < server_index(s, id) ==> (#[trigger] s[j]).id != id,
    decreases s.len(),
{
    if s.len() > 0 && s[0].id != id {
        let d = s.drop_first();
        lemma_server_index(d, id);
        assert forall|j: int| 0 <= j < server_index(s, id) implies (#[trigger] s[j]).id != id by {
            if j > 0 {
                assert(d[j - 1] == s[j]);
            }
        }
    }
}

pub proof fn lemma_secret_index_found(s: Seq<SecretView>, id: u128, i: int)
    requires
        0 <= i < s.len(),
        s[i].id == id,
        forall|j: int| 0 <= j < i ==> (#[trigger] s[j]).id != id,
    ensures
        secret_index(s, id) == i,
    decreases i,
{
    if i > 0 {
        let d = s.drop_first();
        assert(s[0].id != id);
        assert forall|j: int| 0 <= j < i - 1 implies (#[trigger] d[j]).id != id by {
            assert(d[j] == s[j + 1]);
        }
        lemma_secret_index_found(d, id, i - 1);
    }
}

pub proof fn lemma_secret_index_absent(s: Seq<SecretView>, id: u128)
    requires
        forall|j: int| 0 <= j < s.len() ==> (#[trigger] s[j]).id != id,
    ensures
        secret_index(s, id) == s.len(),
    decreases s.len(),
{
    if s.len() > 0 {
        let d = s.drop_first();
        assert(s[0].id != id);
        assert forall|j: int| 0 <= j < d.len() implies (#[trigger] d[j]).id != id by {
            assert(d[j] == s[j + 1]);
        }
        lemma_secret_index_absent(d, id);
    }
}

impl StorageModel {
    /// The listing of servers is in ascending order of names, and holds the
    /// servers of the store and no others.
    pub proof fn lemma_listed_servers_sorted(self)
        ensures
            sorted_by(self.listed_servers(), server_name_le()),
            self.listed_servers().len() == self.servers.len(),
            forall|s: ServerView| self.listed_servers().contains(s) <==> self.servers.contains(s),
    {
        lemma_text_le_order();
        lemma_stable_sort_sorted(self.servers, server_name_le());
        lemma_stable_sort_len(self.servers, server_name_le());
        assert forall|s: ServerView| self.listed_servers().contains(s) <==> self.servers.contains(
            s,
        ) by {
            lemma_stable_sort_contains(self.servers, server_name_le(), s);
        }
    }

    /// The listing of secrets is in ascending order of names, and holds the
    /// secrets of the store and no others.
    pub proof fn lemma_listed_secrets_sorted(self)
        ensures
            sorted_by(self.listed_secrets(), secret_name_le()),
            self.listed_secrets().len() == self.secrets.len(),
            forall|s: SecretView| self.listed_secrets().contains(s) <==> self.secrets.contains(s),
    {
        lemma_text_le_order();
        lemma_stable_sort_sorted(self.secrets, secret_name_le());
        lemma_stable_sort_len(self.secrets, secret_name_le());
        assert forall|s: SecretView| self.listed_secrets().contains(s) <==> self.secrets.contains(
            s,
        ) by {
            lemma_stable_sort_contains(self.secrets, secret_name_le(), s);
        }
    }

    /// Listing keeps servers of one name, and secrets of one name, in the
    /// order they were stored; the links of a server that have one priority
    /// come in the order they were made.
    pub proof fn lemma_ties_keep_their_order(self, name: Seq<char>, server_id: u128, priority: i32)
        ensures
            self.listed_servers().filter(|s: ServerView| s.name == name) == self.servers.filter(
                |s: ServerView| s.name == name,
            ),
            self.listed_secrets().filter(|s: SecretView| s.name == name) == self.secrets.filter(
                |s: SecretView| s.name == name,
            ),
            self.links_for(server_id).filter(|l: ServerSecret| l.priority == priority)
                == self.links.filter(link_of_server(server_id)).filter(
                |l: ServerSecret| l.priority == priority,
            ),
    {
        let servers_named = |s: ServerView| s.name == name;
        let secrets_named = |s: SecretView| s.name == name;
        let of_priority = |l: ServerSecret| l.priority == priority;
        assert forall|a: ServerView, b: ServerView| #[trigger]
            servers_named(a) && #[trigger] servers_named(b) implies server_name_le()(a, b) by {
            lemma_bytes_le_total(vstd::utf8::encode_utf8(name), vstd::utf8::encode_utf8(name));
        }
        assert forall|a: SecretView, b: SecretView| #[trigger]
            secrets_named(a) && #[trigger] secrets_named(b) implies secret_name_le()(a, b) by {
            lemma_bytes_le_total(vstd::utf8::encode_utf8(name), vstd::utf8::encode_utf8(name));
        }
        lemma_stable_sort_filter(self.servers, server_name_le(), servers_named);
        lemma_stable_sort_filter(self.secrets, secret_name_le(), secrets_named);
        lemma_stable_sort_filter(
            self.links.filter(link_of_server(server_id)),
            priority_le(),
            of_priority,
        );
    }

    /// The links of a server come in ascending order of priority, and they
    /// are the links of the store that name the server.
    pub proof fn lemma_links_for_sorted(self, server_id: u128)
        ensures
            sorted_by(self.links_for(server_id), priority_le()),
            forall|l: ServerSecret|
                self.links_for(server_id).contains(l) <==> (self.links.contains(l) && l.server_id
                    == server_id),
    {
        lemma_text_le_order();
        let of = self.links.filter(link_of_server(server_id));
        lemma_stable_sort_sorted(of, priority_le());
        assert forall|l: ServerSecret|
            self.links_for(server_id).contains(l) <==> (self.links.contains(l) && l.server_id
                == server_id) by {
            lemma_stable_sort_contains(of, priority_le(), l);
            lemma_filter_has(self.links, link_of_server(server_id), l);
        }
    }

    /// Where every link of a server points to a secret that is there, the
    /// secrets of the server are the secrets of its links, one for one and in
    /// their order: the secret of the lowest priority comes first.
    pub proof fn lemma_secrets_follow_links(self, server_id: u128)
        requires
            forall|l: ServerSecret| #[trigger]
                self.links_for(server_id).contains(l) ==> self.secret(l.secret_id) is Some,
        ensures
            self.secrets_for(server_id).len() == self.links_for(server_id).len(),
            forall|i: int|
                0 <= i < self.links_for(server_id).len() ==> (#[trigger] self.secrets_for(
                    server_id,
                )[i]).id == self.links_for(server_id)[i].secret_id,
    {
        lemma_linked_secrets(self.links_for(server_id), self.secrets);
    }

    /// Linking a pair anew changes the priority of its link and nothing else:
    /// afterwards the store holds `l`, no other link of the pair, and every
    /// link of another pair that it held before.
    pub proof fn lemma_with_link(self, l: ServerSecret)
        ensures
            self.wf() ==> self.with_link(l).wf(),
            self.with_link(l).links.filter(link_is(l.server_id, l.secret_id)) == seq![l],
            forall|k: ServerSecret| #[trigger]
                self.with_link(l).links.contains(k) <==> (k == l || (self.links.contains(k)
                    && !same_pair(k, l))),
    {
        reveal(Seq::filter);
        let keep = link_is_not(l.server_id, l.secret_id);
        let pair = link_is(l.server_id, l.secret_id);
        let kept = self.links.filter(keep);
        let after = kept.push(l);
        assert forall|i: int| 0 <= i < kept.len() implies !pair(#[trigger] kept[i]) by {
            self.links.lemma_filter_pred(keep, i);
        }
        lemma_filter_none(kept, pair);
        assert(after.drop_last() =~= kept);
        assert(after.filter(pair) =~= seq![l]);
        assert forall|k: ServerSecret| #[trigger]
            after.contains(k) <==> (k == l || (self.links.contains(k) && !same_pair(k, l))) by {
            lemma_filter_has(self.links, keep, k);
            if after.contains(k) {
                let i = choose|i: int| 0 <= i < after.len() && after[i] == k;
                if i < kept.len() {
                    assert(kept[i] == k);
                }
            }
            if kept.contains(k) {
                let i = choose|i: int| 0 <= i < kept.len() && kept[i] == k;
                assert(after[i] == k);
            }
            if k == l {
                assert(after[kept.len() as int] == k);
            }
        }
        if self.wf() {
            lemma_filter_unique(self.links, keep);
            assert forall|i: int, j: int| 0 <= i < j < after.len() implies !same_pair(
                #[trigger] after[i],
                #[trigger] after[j],
            ) by {
                assert(after[i] == kept[i]);
                if j < kept.len() {
                    assert(after[j] == kept[j]);
                }
            }
        }
    }

    /// Linking a pair twice leaves one link of the pair, with the second
    /// priority; the links of the server hold it and no other link to that
    /// secret.
    pub proof fn lemma_link_twice(self, first: ServerSecret, second: ServerSecret)
        requires
            first.server_id == second.server_id,
            first.secret_id == second.secret_id,
        ensures
            self.with_link(first).with_link(second).links.filter(
                link_is(second.server_id, second.secret_id),
            ) == seq![second],
            self.with_link(first).with_link(second).links_for(second.server_id).contains(second),
            forall|l: ServerSecret|
                #![auto]
                self.with_link(first).with_link(second).links_for(second.server_id).contains(l)
                    && l.secret_id == second.secret_id ==> l == second,
    {
        let m1 = self.with_link(first);
        let m2 = m1.with_link(second);
        m1.lemma_with_link(second);
        m2.lemma_links_for_sorted(second.server_id);
        assert(m2.links.contains(second));
        assert forall|l: ServerSecret|
            #![auto]
            m2.links_for(second.server_id).contains(l) && l.secret_id
                == second.secret_id implies l == second by {
            assert(m2.links.contains(l));
        }
    }

    /// Deleting a server leaves no server of that identifier and no link that
    /// names it; the secrets stay.
    pub proof fn lemma_without_server(self, id: u128)
        ensures
            self.without_server(id).server(id) is None,
            forall|l: ServerSecret|
                self.without_server(id).links.contains(l) ==> l.server_id != id,
            self.without_server(id).links_for(id) == Seq::<ServerSecret>::empty(),
            self.without_server(id).secrets_for(id) == Seq::<SecretView>::empty(),
            self.without_server(id).secrets == self.secrets,
            self.wf() ==> self.without_server(id).wf(),
    {
        let m = self.without_server(id);
        assert forall|j: int| 0 <= j < m.servers.len() implies (#[trigger] m.servers[j]).id
            != id by {
            self.servers.lemma_filter_pred(server_is_not(id), j);
        }
        lemma_server_index_absent(m.servers, id);
        assert forall|l: ServerSecret| m.links.contains(l) implies l.server_id != id by {
            lemma_filter_has(self.links, link_not_of_server(id), l);
        }
        assert forall|i: int| 0 <= i < m.links.len() implies !link_of_server(id)(
            #[trigger] m.links[i],
        ) by {
            self.links.lemma_filter_pred(link_not_of_server(id), i);
        }
        lemma_filter_none(m.links, link_of_server(id));
        if self.wf() {
            lemma_filter_unique(self.links, link_not_of_server(id));
        }
    }

    /// Deleting a secret leaves no secret of that identifier and no link to
    /// it; the servers stay.
    pub proof fn lemma_without_secret(self, id: u128)
        ensures
            self.without_secret(id).secret(id) is None,
            forall|l: ServerSecret|
                self.without_secret(id).links.contains(l) ==> l.secret_id != id,
            self.without_secret(id).servers == self.servers,
            self.wf() ==> self.without_secret(id).wf(),
    {
        let m = self.without_secret(id);
        assert forall|j: int| 0 <= j < m.secrets.len() implies (#[trigger] m.secrets[j]).id
            != id by {
            self.secrets.lemma_filter_pred(secret_is_not(id), j);
        }
        lemma_secret_index_absent(m.secrets, id);
        assert forall|l: ServerSecret| m.links.contains(l) implies l.secret_id != id by {
            lemma_filter_has(self.links, link_not_of_secret(id), l);
        }
        if self.wf() {
            lemma_filter_unique(self.links, link_not_of_secret(id));
        }
    }

    /// Storing a server under an identifier that no server has yet, then
    /// updating it with the same fields, changes nothing that can be seen but
    /// the time of the update.
    pub proof fn lemma_store_update_get(self, s: ServerView, at: Timestamp)
        requires
            self.server(s.id) is None,
        ensures
            self.with_server(s).server(s.id) == Some(s),
            self.with_server(s).with_updated_server(s, at).server(s.id) == Some(
                ServerView { updated_at: at, ..s },
            ),
            self.with_server(s).with_updated_server(s, at).servers.len() == self.servers.len()
                + 1,
            forall|i: int|
                0 <= i < self.servers.len() ==> #[trigger] self.with_server(s).with_updated_server(
                    s,
                    at,
                ).servers[i] == self.servers[i],
            self.with_server(s).with_updated_server(s, at).secrets == self.secrets,
            self.with_server(s).with_updated_server(s, at).links == self.links,
    {
        lemma_server_index(self.servers, s.id);
        let m1 = self.with_server(s);
        let n = self.servers.len() as int;
        assert forall|j: int| 0 <= j < n implies (#[trigger] m1.servers[j]).id != s.id by {
            assert(m1.servers[j] == self.servers[j]);
        }
        lemma_server_index_found(m1.servers, s.id, n);
        let m2 = m1.with_updated_server(s, at);
        assert forall|j: int| 0 <= j < n implies (#[trigger] m2.servers[j]).id != s.id by {
            assert(m2.servers[j] == self.servers[j]);
        }
        lemma_server_index_found(m2.servers, s.id, n);
    }
}

/// Links that all point to secrets that are there give one secret each, in
/// the order of the links.
pub proof fn lemma_linked_secrets(links: Seq<ServerSecret>, secrets: Seq<SecretView>)
    requires
        forall|l: ServerSecret| #[trigger]
            links.contains(l) ==> secret_index(secrets, l.secret_id) < secrets.len(),
    ensures
        linked_secrets(links, secrets).len() == links.len(),
        forall|i: int|
            0 <= i < links.len() ==> (#[trigger] linked_secrets(links, secrets)[i]).id
                == links[i].secret_id,
    decreases links.len(),
{
    if links.len() > 0 {
        let d = links.drop_last();
        assert forall|l: ServerSecret| #[trigger] d.contains(l) implies secret_index(
            secrets,
            l.secret_id,
        ) < secrets.len() by {
            let i = choose|i: int| 0 <= i < d.len() && d[i] == l;
            assert(links[i] == l);
            assert(links.contains(l));
        }
        lemma_linked_secrets(d, secrets);
        assert(links.contains(links.last())) by {
            assert(links[links.len() - 1] == links.last());
        }
        lemma_secret_index_holds(secrets, links.last().secret_id);
    }
}

/// Where the index points, a secret with the identifier stands.
pub proof fn lemma_secret_index_holds(s: Seq<SecretView>, id: u128)
    ensures
        0 <= secret_index(s, id) <= s.len(),
        secret_index(s, id) < s.len() ==> s[secret_index(s, id)].id == id,
    decreases s.len(),
{
    if s.len() > 0 && s[0].id != id {
        lemma_secret_index_holds(s.drop_first(), id);
    }
}

/// A filter keeps the items that pass it, and no others.
pub proof fn lemma_filter_has<T>(s: Seq<T>, keep: spec_fn(T) -> bool, x: T)
    ensures
        s.filter(keep).contains(x) <==> (s.contains(x) && keep(x)),
    decreases s.len(),
{
    reveal(Seq::filter);
    if s.len() > 0 {
        let d = s.drop_last();
        lemma_filter_has(d, keep, x);
        let f = s.filter(keep);
        if f.contains(x) {
            let i = choose|i: int| 0 <= i < f.len() && f[i] == x;
            if keep(s.last()) && i == f.len() - 1 {
                assert(s[s.len() - 1] == x);
            } else {
                assert(d.filter(keep)[i] == x);
                assert(d.filter(keep).contains(x));
                let k = choose|k: int| 0 <= k < d.len() && d[k] == x;
                assert(s[k] == x);
            }
        }
        if s.contains(x) && keep(x) {
            let k = choose|k: int| 0 <= k < s.len() && s[k] == x;
            if k == s.len() - 1 {
                assert(f[f.len() - 1] == x);
            } else {
                assert(d[k] == x);
                assert(d.contains(x));
                let i = choose|i: int| 0 <= i < d.filter(keep).len() && d.filter(keep)[i] == x;
                assert(f[i] == x);
            }
        }
    }
}

/// Taking links out leaves no two links of one pair, where there were none.
pub proof fn lemma_filter_unique(s: Seq<ServerSecret>, keep: spec_fn(ServerSecret) -> bool)
    requires
        links_unique(s),
    ensures
        links_unique(s.filter(keep)),
    decreases s.len(),
{
    reveal(Seq::filter);
    if s.len() > 0 {
        let d = s.drop_last();
        let f = s.filter(keep);
        let fd = d.filter(keep);
        assert forall|i: int, j: int| 0 <= i < j < d.len() implies !same_pair(
            #[trigger] d[i],
            #[trigger] d[j],
        ) by {
            assert(d[i] == s[i] && d[j] == s[j]);
        }
        lemma_filter_unique(d, keep);
        assert forall|i: int, j: int| 0 <= i < j < f.len() implies !same_pair(
            #[trigger] f[i],
            #[trigger] f[j],
        ) by {
            if j < fd.len() {
                assert(f[i] == fd[i] && f[j] == fd[j]);
            } else {
                assert(f[i] == fd[i]);
                assert(fd.contains(fd[i]));
                lemma_filter_has(d, keep, fd[i]);
                let a = choose|a: int| 0 <= a < d.len() && d[a] == fd[i];
                assert(s[a] == f[i]);
                assert(s[s.len() - 1] == f[j]);
            }
        }
    }
}

/// The values of a sequence of servers.
pub open spec fn server_views(v: Seq<Server>) -> Seq<ServerView> {
    v.map_values(|s: Server| s@)
}

/// The values of a sequence of secrets.
pub open spec fn secret_views(v: Seq<Secret>) -> Seq<SecretView> {
    v.map_values(|s: Secret| s@)
}

/// The value of an optional server.
pub open spec fn opt_server_view(o: Option<Server>) -> Option<ServerView> {
    match o {
        Some(s) => Some(s@),
        None => None,
    }
}

/// The value of an optional secret.
pub open spec fn opt_secret_view(o: Option<Secret>) -> Option<SecretView> {
    match o {
        Some(s) => Some(s@),
        None => None,
    }
}

/// What the store holds: the document that is written to disk.
#[derive(Debug)]
pub struct StorageData {
    pub servers: Vec<Server>,
    pub secrets: Vec<Secret>,
    pub server_secrets: Vec<ServerSecret>,
}

impl View for StorageData {
    type V = StorageModel;

    open spec fn view(&self) -> StorageModel {
        StorageModel {
            servers: server_views(self.servers@),
            secrets: secret_views(self.secrets@),
            links: self.server_secrets@,
        }
    }
}

impl Default for StorageData {
    fn default() -> (r: Self)
        ensures
            r@ == StorageModel::empty(),
    {
        let r = StorageData { servers: Vec::new(), secrets: Vec::new(), server_secrets: Vec::new() };
        assert(r@.servers =~= Seq::empty());
        assert(r@.secrets =~= Seq::empty());
        r
    }
}

/// The store.
#[derive(Debug)]
pub struct Storage {
    pub data: StorageData,
}

impl View for Storage {
    type V = StorageModel;

    open spec fn view(&self) -> StorageModel {
        self.data@
    }
}

impl Storage {
    /// An empty store that lives in memory only.
    pub fn in_memory() -> (r: Self)
        ensures
            r@ == StorageModel::empty(),
    {
        Storage { data: StorageData::default() }
    }
}

/// Which links to keep.
enum LinkFilter {
    OfServer(u128),
    NotOfServer(u128),
    NotOfSecret(u128),
    NotPair(u128, u128),
}

impl LinkFilter {
    spec fn keep(self) -> spec_fn(ServerSecret) -> bool {
        match self {
            LinkFilter::OfServer(id) => link_of_server(id),
            LinkFilter::NotOfServer(id) => link_not_of_server(id),
            LinkFilter::NotOfSecret(id) => link_not_of_secret(id),
            LinkFilter::NotPair(server_id, secret_id) => link_is_not(server_id, secret_id),
        }
    }

    fn test(&self, l: &ServerSecret) -> (b: bool)
        ensures
            b == self.keep()(*l),
    {
        match self {
            LinkFilter::OfServer(id) => l.server_id == *id,
            LinkFilter::NotOfServer(id) => l.server_id != *id,
            LinkFilter::NotOfSecret(id) => l.secret_id != *id,
            LinkFilter::NotPair(server_id, secret_id) => l.server_id != *server_id || l.secret_id
                != *secret_id,
        }
    }
}

fn filter_links(links: &Vec<ServerSecret>, which: LinkFilter) -> (r: Vec<ServerSecret>)
    ensures
        r@ == links@.filter(which.keep()),
{
    let ghost keep = which.keep();
    let mut r: Vec<ServerSecret> = Vec::new();
    let mut i: usize = 0;
    proof {
        reveal(Seq::filter);
        assert(links@.subrange(0, 0) =~= Seq::empty());
    }
    while i < links.len()
        invariant
            i <= links.len(),
            keep == which.keep(),
            r@ == links@.subrange(0, i as int).filter(keep),
        decreases links.len() - i,
    {
        let l = links[i];
        let b = which.test(&l);
        proof {
            reveal(Seq::filter);
            assert(links@.subrange(0, i + 1).drop_last() =~= links@.subrange(0, i as int));
        }
        if b {
            r.push(l);
        }
        i = i + 1;
    }
    assert(links@.subrange(0, links@.len() as int) =~= links@);
    r
}

fn filter_servers(servers: &Vec<Server>, id: u128) -> (r: Vec<Server>)
    ensures
        server_views(r@) == server_views(servers@).filter(server_is_not(id)),
{
    let mut r: Vec<Server> = Vec::new();
    let mut i: usize = 0;
    let ghost all = server_views(servers@);
    proof {
        reveal(Seq::filter);
        assert(all.subrange(0, 0) =~= Seq::empty());
        assert(server_views(r@) =~= Seq::empty());
    }
    while i < servers.len()
        invariant
            i <= servers.len(),
            all == server_views(servers@),
            server_views(r@) == all.subrange(0, i as int).filter(server_is_not(id)),
        decreases servers.len() - i,
    {
        proof {
            reveal(Seq::filter);
            assert(all.subrange(0, i + 1).drop_last() =~= all.subrange(0, i as int));
        }
        if servers[i].id != id {
            let ghost before = server_views(r@);
            r.push(servers[i].clone());
            assert(server_views(r@) =~= before.push(all[i as int]));
        }
        i = i + 1;
    }
    assert(all.subrange(0, all.len() as int) =~= all);
    r
}

fn filter_secrets(secrets: &Vec<Secret>, id: u128) -> (r: Vec<Secret>)
    ensures
        secret_views(r@) == secret_views(secrets@).filter(secret_is_not(id)),
{
    let mut r: Vec<Secret> = Vec::new();
    let mut i: usize = 0;
    let ghost all = secret_views(secrets@);
    proof {
        reveal(Seq::filter);
        assert(all.subrange(0, 0) =~= Seq::empty());
        assert(secret_views(r@) =~= Seq::empty());
    }
    while i < secrets.len()
        invariant
            i <= secrets.len(),
            all == secret_views(secrets@),
            secret_views(r@) == all.subrange(0, i as int).filter(secret_is_not(id)),
        decreases secrets.len() - i,
    {
        proof {
            reveal(Seq::filter);
            assert(all.subrange(0, i + 1).drop_last() =~= all.subrange(0, i as int));
        }
        if secrets[i].id != id {
            let ghost before = secret_views(r@);
            r.push(secrets[i].clone());
            assert(secret_views(r@) =~= before.push(all[i as int]));
        }
        i = i + 1;
    }
    assert(all.subrange(0, all.len() as int) =~= all);
    r
}

/// The place of the first secret with the given identifier, if there is one.
fn find_secret(secrets: &Vec<Secret>, id: u128) -> (r: Option<usize>)
    ensures
        match r {
            Some(i) => i == secret_index(secret_views(secrets@), id) && i < secrets.len(),
            None => secret_index(secret_views(secrets@), id) == secrets.len(),
        },
{
    let ghost all = secret_views(secrets@);
    let mut i: usize = 0;
    while i < secrets.len()
        invariant
            i <= secrets.len(),
            all == secret_views(secrets@),
            forall|j: int| 0 <= j < i ==> (#[trigger] all[j]).id != id,
        decreases secrets.len() - i,
    {
        if secrets[i].id == id {
            proof {
                lemma_secret_index_found(all, id, i as int);
            }
            return Some(i);
        }
        i = i + 1;
    }
    proof {
        lemma_secret_index_absent(all, id);
    }
    None
}

/// The place of the first server with the given identifier, if there is one.
fn find_server(servers: &Vec<Server>, id: u128) -> (r: Option<usize>)
    ensures
        match r {
            Some(i) => i == server_index(server_views(servers@), id) && i < servers.len(),
            None => server_index(server_views(servers@), id) == servers.len(),
        },
{
    let ghost all = server_views(servers@);
    let mut i: usize = 0;
    while i < servers.len()
        invariant
            i <= servers.len(),
            all == server_views(servers@),
            forall|j: int| 0 <= j < i ==> (#[trigger] all[j]).id != id,
        decreases servers.len() - i,
    {
        if servers[i].id == id {
            proof {
                lemma_server_index_found(all, id, i as int);
            }
            return Some(i);
        }
        i = i + 1;
    }
    proof {
        lemma_server_index_absent(all, id);
    }
    None
}

/// The secrets of a store.
pub struct SecretRepository;

impl SecretRepository {
    /// Stores a new secret, behind the ones that are there.
    pub fn store(storage: &mut Storage, secret: &Secret)
        ensures
            final(storage)@ == old(storage)@.with_secret(secret@),
    {
        let ghost before = secret_views(storage.data.secrets@);
        storage.data.secrets.push(secret.clone());
        assert(secret_views(storage.data.secrets@) =~= before.push(secret@));
    }

    /// The first secret with the given identifier.
    pub fn get(storage: &Storage, id: u128) -> (r: Option<Secret>)
        ensures
            opt_secret_view(r) == storage@.secret(id),
    {
        match find_secret(&storage.data.secrets, id) {
            Some(i) => Some(storage.data.secrets[i].clone()),
            None => None,
        }
    }

    /// All secrets, in ascending order of their names.
    pub fn list(storage: &Storage) -> (r: Vec<Secret>)
        ensures
            secret_views(r@) == storage@.listed_secrets(),
            sorted_by(secret_views(r@), secret_name_le()),
    {
        let secrets = &storage.data.secrets;
        let ghost all = secret_views(secrets@);
        let mut out: Vec<Secret> = Vec::new();
        let mut i: usize = 0;
        proof {
            assert(all.subrange(0, 0) =~= Seq::empty());
            assert(secret_views(out@) =~= Seq::empty());
        }
        while i < secrets.len()
            invariant
                i <= secrets.len(),
                all == secret_views(secrets@),
                secret_views(out@) == stable_sort(all.subrange(0, i as int), secret_name_le()),
            decreases secrets.len() - i,
        {
            let x = secrets[i].clone();
            let mut p: usize = out.len();
            while p > 0 && !str_le(out[p - 1].name.as_str(), x.name.as_str())
                invariant
                    p <= out.len(),
                    forall|j: int|
                        p <= j < out.len() ==> !secret_name_le()(
                            #[trigger] secret_views(out@)[j],
                            x@,
                        ),
                decreases p,
            {
                p = p - 1;
            }
            proof {
                let sorted = secret_views(out@);
                lemma_insert_index_unique(sorted, x@, secret_name_le(), p as int);
                assert(all.subrange(0, i + 1).drop_last() =~= all.subrange(0, i as int));
                assert(all.subrange(0, i + 1).last() == x@);
            }
            let ghost before = secret_views(out@);
            out.insert(p, x);
            assert(secret_views(out@) =~= before.insert(p as int, x@));
            i = i + 1;
        }
        proof {
            assert(all.subrange(0, all.len() as int) =~= all);
            storage@.lemma_listed_secrets_sorted();
        }
        out
    }

    /// Deletes the secrets with the given identifier, and the links to them.
    pub fn delete(storage: &mut Storage, id: u128)
        ensures
            final(storage)@ == old(storage)@.without_secret(id),
            old(storage)@.wf() ==> final(storage)@.wf(),
            final(storage)@.secret(id) is None,
            forall|l: ServerSecret| final(storage)@.links.contains(l) ==> l.secret_id != id,
            final(storage)@.servers == old(storage)@.servers,
    {
        proof {
            storage@.lemma_without_secret(id);
        }
        let secrets = filter_secrets(&storage.data.secrets, id);
        let links = filter_links(&storage.data.server_secrets, LinkFilter::NotOfSecret(id));
        storage.data.secrets = secrets;
        storage.data.server_secrets = links;
    }

    /// Gives the first secret with the identifier of `secret` the fields of
    /// `secret`, and `at` as the time of its last update.
    pub fn update_at(storage: &mut Storage, secret: &Secret, at: Timestamp)
        ensures
            final(storage)@ == old(storage)@.with_updated_secret(secret@, at),
    {
        match find_secret(&storage.data.secrets, secret.id) {
            Some(i) => {
                let ghost before = secret_views(storage.data.secrets@);
                let mut s = secret.clone();
                s.updated_at = at;
                storage.data.secrets.set(i, s);
                assert(secret_views(storage.data.secrets@) =~= before.update(
                    i as int,
                    SecretView { updated_at: at, ..secret@ },
                ));
            },
            None => {},
        }
    }

    /// Updates a secret, at the current time.
    pub fn update(storage: &mut Storage, secret: &Secret)
        ensures
            exists|at: Timestamp|
                final(storage)@ == #[trigger] old(storage)@.with_updated_secret(secret@, at),
    {
        let at = now();
        SecretRepository::update_at(storage, secret, at);
    }
}

/// The servers of a store, and the links from them to secrets.
pub struct ServerRepository;

impl ServerRepository {
    /// Stores a new server, behind the ones that are there.
    pub fn store(storage: &mut Storage, server: &Server)
        ensures
            final(storage)@ == old(storage)@.with_server(server@),
    {
        let ghost before = server_views(storage.data.servers@);
        storage.data.servers.push(server.clone());
        assert(server_views(storage.data.servers@) =~= before.push(server@));
    }

    /// The first server with the given identifier.
    pub fn get(storage: &Storage, id: u128) -> (r: Option<Server>)
        ensures
            opt_server_view(r) == storage@.server(id),
    {
        match find_server(&storage.data.servers, id) {
            Some(i) => Some(storage.data.servers[i].clone()),
            None => None,
        }
    }

    /// All servers, in ascending order of their names.
    pub fn list(storage: &Storage) -> (r: Vec<Server>)
        ensures
            server_views(r@) == storage@.listed_servers(),
            sorted_by(server_views(r@), server_name_le()),
    {
        let servers = &storage.data.servers;
        let ghost all = server_views(servers@);
        let mut out: Vec<Server> = Vec::new();
        let mut i: usize = 0;
        proof {
            assert(all.subrange(0, 0) =~= Seq::empty());
            assert(server_views(out@) =~= Seq::empty());
        }
        while i < servers.len()
            invariant
                i <= servers.len(),
                all == server_views(servers@),
                server_views(out@) == stable_sort(all.subrange(0, i as int), server_name_le()),
            decreases servers.len() - i,
        {
            let x = servers[i].clone();
            let mut p: usize = out.len();
            while p > 0 && !str_le(out[p - 1].name.as_str(), x.name.as_str())
                invariant
                    p <= out.len(),
                    forall|j: int|
                        p <= j < out.len() ==> !server_name_le()(
                            #[trigger] server_views(out@)[j],
                            x@,
                        ),
                decreases p,
            {
                p = p - 1;
            }
            proof {
                let sorted = server_views(out@);
                lemma_insert_index_unique(sorted, x@, server_name_le(), p as int);
                assert(all.subrange(0, i + 1).drop_last() =~= all.subrange(0, i as int));
                assert(all.subrange(0, i + 1).last() == x@);
            }
            let ghost before = server_views(out@);
            out.insert(p, x);
            assert(server_views(out@) =~= before.insert(p as int, x@));
            i = i + 1;
        }
        proof {
            assert(all.subrange(0, all.len() as int) =~= all);
            storage@.lemma_listed_servers_sorted();
        }
        out
    }

    /// Deletes the servers with the given identifier, and their links.
    pub fn delete(storage: &mut Storage, id: u128)
        ensures
            final(storage)@ == old(storage)@.without_server(id),
            old(storage)@.wf() ==> final(storage)@.wf(),
            final(storage)@.server(id) is None,
            forall|l: ServerSecret| final(storage)@.links.contains(l) ==> l.server_id != id,
            final(storage)@.secrets_for(id) == Seq::<SecretView>::empty(),
            final(storage)@.secrets == old(storage)@.secrets,
    {
        proof {
            storage@.lemma_without_server(id);
        }
        let servers = filter_servers(&storage.data.servers, id);
        let links = filter_links(&storage.data.server_secrets, LinkFilter::NotOfServer(id));
        storage.data.servers = servers;
        storage.data.server_secrets = links;
    }

    /// Gives the first server with the identifier of `server` the fields of
    /// `server`, and `at` as the time of its last update.
    pub fn update_at(storage: &mut Storage, server: &Server, at: Timestamp)
        ensures
            final(storage)@ == old(storage)@.with_updated_server(server@, at),
    {
        match find_server(&storage.data.servers, server.id) {
            Some(i) => {
                let ghost before = server_views(storage.data.servers@);
                let mut s = server.clone();
                s.updated_at = at;
                storage.data.servers.set(i, s);
                assert(server_views(storage.data.servers@) =~= before.update(
                    i as int,
                    ServerView { updated_at: at, ..server@ },
                ));
            },
            None => {},
        }
    }

    /// Updates a server, at the current time.
    pub fn update(storage: &mut Storage, server: &Server)
        ensures
            exists|at: Timestamp|
                final(storage)@ == #[trigger] old(storage)@.with_updated_server(server@, at),
    {
        let at = now();
        ServerRepository::update_at(storage, server, at);
    }

    /// Links a secret to a server. A link between the two that is there is
    /// replaced.
    pub fn link_secret(storage: &mut Storage, link: &ServerSecret)
        ensures
            final(storage)@ == old(storage)@.with_link(*link),
            old(storage)@.wf() ==> final(storage)@.wf(),
            final(storage)@.links.filter(link_is(link.server_id, link.secret_id)) == seq![*link],
    {
        let server_id = link.server_id;
        let secret_id = link.secret_id;
        let mut links = filter_links(
            &storage.data.server_secrets,
            LinkFilter::NotPair(server_id, secret_id),
        );
        links.push(*link);
        proof {
            storage@.lemma_with_link(*link);
        }
        storage.data.server_secrets = links;
    }

    /// Takes away the link between a server and a secret.
    pub fn unlink_secret(storage: &mut Storage, server_id: u128, secret_id: u128)
        ensures
            final(storage)@ == old(storage)@.without_link(server_id, secret_id),
            old(storage)@.wf() ==> final(storage)@.wf(),
    {
        let links = filter_links(
            &storage.data.server_secrets,
            LinkFilter::NotPair(server_id, secret_id),
        );
        proof {
            if storage@.wf() {
                lemma_filter_unique(storage@.links, link_is_not(server_id, secret_id));
            }
        }
        storage.data.server_secrets = links;
    }

    /// The secrets linked to a server, the one of the lowest priority first.
    pub fn get_secrets(storage: &Storage, server_id: u128) -> (r: Vec<Secret>)
        ensures
            secret_views(r@) == storage@.secrets_for(server_id),
    {
        let linked = filter_links(&storage.data.server_secrets, LinkFilter::OfServer(server_id));
        let mut ordered: Vec<ServerSecret> = Vec::new();
        let mut i: usize = 0;
        proof {
            assert(linked@.subrange(0, 0) =~= Seq::empty());
        }
        while i < linked.len()
            invariant
                i <= linked.len(),
                ordered@ == stable_sort(linked@.subrange(0, i as int), priority_le()),
            decreases linked.len() - i,
        {
            let x = linked[i];
            let mut p: usize = ordered.len();
            while p > 0 && ordered[p - 1].priority > x.priority
                invariant
                    p <= ordered.len(),
                    forall|j: int|
                        p <= j < ordered.len() ==> !priority_le()(#[trigger] ordered@[j], x),
                decreases p,
            {
                p = p - 1;
            }
            proof {
                lemma_insert_index_unique(ordered@, x, priority_le(), p as int);
                assert(linked@.subrange(0, i + 1).drop_last() =~= linked@.subrange(0, i as int));
                assert(linked@.subrange(0, i + 1).last() == x);
            }
            ordered.insert(p, x);
            i = i + 1;
        }
        assert(linked@.subrange(0, linked@.len() as int) =~= linked@);
        let mut out: Vec<Secret> = Vec::new();
        let mut k: usize = 0;
        let ghost secrets = secret_views(storage.data.secrets@);
        proof {
            assert(ordered@.subrange(0, 0) =~= Seq::empty());
            assert(secret_views(out@) =~= Seq::empty());
        }
        while k < ordered.len()
            invariant
                k <= ordered.len(),
                secrets == secret_views(storage.data.secrets@),
                secret_views(out@) == linked_secrets(ordered@.subrange(0, k as int), secrets),
            decreases ordered.len() - k,
        {
            proof {
                assert(ordered@.subrange(0, k + 1).drop_last() =~= ordered@.subrange(0, k as int));
                assert(ordered@.subrange(0, k + 1).last() == ordered@[k as int]);
            }
            match find_secret(&storage.data.secrets, ordered[k].secret_id) {
                Some(at) => {
                    let ghost before = secret_views(out@);
                    out.push(storage.data.secrets[at].clone());
                    assert(secret_views(out@) =~= before.push(secrets[at as int]));
                },
                None => {},
            }
            k = k + 1;
        }
        assert(ordered@.subrange(0, ordered@.len() as int) =~= ordered@);
        out
    }
}

} // verus!
