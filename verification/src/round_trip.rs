use crate::chars::split_on;
use crate::contract::{capabilities_wf, distinct, is_binding_id, seq_less, EndpointCapabilitiesView};
use crate::membership::unique_keys;
use crate::nacos::{
    decoded_bindings, decoded_capabilities, decoded_versions, lookup, matches_selector_spec, meta_http_bindings,
    meta_http_versions, meta_instance_id, meta_invocation_controls, meta_scheme, meta_service_id, meta_version,
    versions_of, NacosConvention,
};
use crate::ordering::{lemma_less_asymmetric, lemma_sort_sorted_identity, strictly_sorted};
use crate::invocation::{keep, lemma_keep_satisfies};
use crate::registration::{
    as_map, discovered_instance, discovered_instances, is_reserved_key, join_commas, registered_metadata,
    user_registration_metadata, versions_text, NacosInstance, Registration,
};
use crate::contract::ServiceSelector;
use crate::contract::pairs_view;
use vstd::prelude::*;

verus! {

/// Splitting a text that holds no separator yields the text itself.
proof fn lemma_split_plain(y: Seq<char>, c: char)
    requires
        forall|i: int| 0 <= i < y.len() ==> y[i] != c,
    ensures
        split_on(y, c) == seq![y],
    decreases y.len(),
{
    if y.len() > 0 {
        lemma_split_plain(y.drop_last(), c);
        assert(y.drop_last().push(y.last()) =~= y);
        assert(split_on(y, c) =~= seq![y]);
    } else {
        assert(y =~= Seq::<char>::empty());
    }
}

/// Splitting `x`, a separator and a separator-free `y` adds `y` as the last piece.
proof fn lemma_split_after(x: Seq<char>, y: Seq<char>, c: char)
    requires
        forall|i: int| 0 <= i < y.len() ==> y[i] != c,
    ensures
        split_on(x + seq![c] + y, c) == split_on(x, c) + seq![y],
    decreases y.len(),
{
    let s = x + seq![c] + y;
    if y.len() == 0 {
        assert(s.drop_last() =~= x);
        assert(y =~= Seq::<char>::empty());
        assert(split_on(s, c) =~= split_on(x, c) + seq![y]);
    } else {
        lemma_split_after(x, y.drop_last(), c);
        assert(s.drop_last() =~= x + seq![c] + y.drop_last());
        assert(y.drop_last().push(y.last()) =~= y);
        assert(split_on(s, c) =~= split_on(x, c) + seq![y]);
    }
}

/// Splitting a comma-joined list of comma-free texts gives the list back.
pub proof fn lemma_split_join(parts: Seq<Seq<char>>)
    requires
        parts.len() > 0,
        forall|i: int, k: int| 0 <= i < parts.len() && 0 <= k < parts[i].len() ==> #[trigger] parts[i][k] != ',',
    ensures
        split_on(join_commas(parts), ',') == parts,
    decreases parts.len(),
{
    if parts.len() == 1 {
        assert forall|k: int| 0 <= k < parts[0].len() implies parts[0][k] != ',' by {
            assert(parts[0][k] != ',');
        }
        lemma_split_plain(parts[0], ',');
        assert(parts =~= seq![parts[0]]);
    } else {
        let init = parts.drop_last();
        assert forall|i: int, k: int| 0 <= i < init.len() && 0 <= k < init[i].len() implies #[trigger] init[i][k] != ',' by {
            assert(init[i] == parts[i]);
        }
        lemma_split_join(init);
        assert forall|k: int| 0 <= k < parts.last().len() implies parts.last()[k] != ',' by {
            assert(parts[parts.len() - 1][k] != ',');
        }
        lemma_split_after(join_commas(init), parts.last(), ',');
        assert(init + seq![parts.last()] =~= parts);
    }
}

/// The first entry with `key` decides a lookup; without one it finds nothing.
proof fn lemma_lookup_first(md: Seq<(Seq<char>, Seq<char>)>, key: Seq<char>, i: int)
    requires
        0 <= i < md.len(),
        md[i].0 == key,
        forall|j: int| 0 <= j < i ==> md[j].0 != key,
    ensures
        lookup(md, key) == Some(md[i].1),
    decreases i,
{
    if i > 0 {
        let rest = md.drop_first();
        assert forall|j: int| 0 <= j < i - 1 implies rest[j].0 != key by {
            assert(rest[j] == md[j + 1]);
        }
        lemma_lookup_first(rest, key, i - 1);
    }
}

proof fn lemma_lookup_absent(md: Seq<(Seq<char>, Seq<char>)>, key: Seq<char>)
    requires
        forall|j: int| 0 <= j < md.len() ==> md[j].0 != key,
    ensures
        lookup(md, key) is None,
    decreases md.len(),
{
    if md.len() > 0 {
        let rest = md.drop_first();
        assert forall|j: int| 0 <= j < rest.len() implies rest[j].0 != key by {
            assert(rest[j] == md[j + 1]);
        }
        lemma_lookup_absent(rest, key);
    }
}

proof fn lemma_as_map_entry(md: Seq<(Seq<char>, Seq<char>)>, i: int)
    requires
        unique_keys(md),
        0 <= i < md.len(),
    ensures
        as_map(md).contains_key(md[i].0),
        as_map(md)[md[i].0] == md[i].1,
    decreases md.len(),
{
    if i < md.len() - 1 {
        let init = md.drop_last();
        assert(init[i] == md[i]);
        lemma_as_map_entry(init, i);
        assert(md.last().0 != md[i].0);
    }
}

proof fn lemma_as_map_missing(md: Seq<(Seq<char>, Seq<char>)>, key: Seq<char>)
    requires
        forall|j: int| 0 <= j < md.len() ==> md[j].0 != key,
    ensures
        !as_map(md).contains_key(key),
    decreases md.len(),
{
    if md.len() > 0 {
        let init = md.drop_last();
        assert forall|j: int| 0 <= j < init.len() implies init[j].0 != key by {
            assert(init[j] == md[j]);
        }
        lemma_as_map_missing(init, key);
    }
}

/// With one entry per key, the lookup of a key is what the described map holds for it.
pub proof fn lemma_lookup_as_map(md: Seq<(Seq<char>, Seq<char>)>, key: Seq<char>)
    requires
        unique_keys(md),
    ensures
        lookup(md, key) == (if as_map(md).contains_key(key) { Some(as_map(md)[key]) } else { None::<Seq<char>> }),
{
    if exists|i: int| 0 <= i < md.len() && md[i].0 == key {
        let i = choose|i: int| 0 <= i < md.len() && md[i].0 == key;
        assert forall|j: int| 0 <= j < i implies md[j].0 != key by {
            if md[j].0 == key {
                assert(md[j].0 == md[i].0);
            }
        }
        lemma_lookup_first(md, key, i);
        lemma_as_map_entry(md, i);
    } else {
        lemma_lookup_absent(md, key);
        lemma_as_map_missing(md, key);
    }
}

/// The text of a version set decodes to that set.
pub proof fn lemma_versions_text(http1_1: bool, http2: bool)
    requires
        http1_1 || http2,
    ensures
        decoded_versions(versions_text(http1_1, http2)) == Some((http1_1, http2)),
{
    reveal_strlit("1.1");
    reveal_strlit("2");
    reveal_strlit("1.1,2");
    let one: Seq<char> = "1.1"@;
    let two: Seq<char> = "2"@;
    assert(one[0] != ',' && one[1] != ',' && one[2] != ',');
    assert(two[0] != ',');
    if http1_1 && http2 {
        let parts = seq![one, two];
        assert(join_commas(parts.drop_last()) == one);
        assert(join_commas(parts) =~= "1.1,2"@);
        lemma_split_join(parts);
        assert(parts.drop_last() =~= seq![one]);
        assert(seq![one].drop_last() =~= Seq::<Seq<char>>::empty());
        assert(versions_of(Seq::<Seq<char>>::empty()) == Some((false, false)));
        assert(seq![one].last() == one);
        assert(versions_of(seq![one]) == Some((true, false)));
        assert(parts.last() == two);
        assert(versions_of(parts) == Some((true, true)));
    } else if http1_1 {
        lemma_split_plain(one, ',');
        assert(seq![one].drop_last() =~= Seq::<Seq<char>>::empty());
    } else {
        lemma_split_plain(two, ',');
        assert(seq![two].drop_last() =~= Seq::<Seq<char>>::empty());
    }
}

/// Well-formed bindings, joined with commas, decode to themselves.
pub proof fn lemma_bindings_text(bindings: Seq<Seq<char>>)
    requires
        bindings.len() > 0,
        forall|i: int| 0 <= i < bindings.len() ==> is_binding_id(#[trigger] bindings[i]),
        strictly_sorted(bindings),
    ensures
        decoded_bindings(join_commas(bindings)) == Some(bindings),
{
    assert forall|i: int, k: int| 0 <= i < bindings.len() && 0 <= k < bindings[i].len() implies #[trigger] bindings[i][k] != ',' by {
        assert(is_binding_id(bindings[i]));
    }
    lemma_split_join(bindings);
    assert(distinct(bindings)) by {
        assert forall|i: int, j: int| 0 <= i < j < bindings.len() implies bindings[i] != bindings[j] by {
            assert(seq_less(bindings[i], bindings[j]));
            lemma_less_asymmetric(bindings[i], bindings[j]);
        }
    }
}

/// The reserved metadata keys are distinct texts.
proof fn lemma_reserved_keys_distinct()
    ensures
        meta_http_bindings() != meta_http_versions(),
        meta_invocation_controls() != meta_http_bindings(),
        meta_invocation_controls() != meta_http_versions(),
        meta_version() != meta_http_bindings(),
        meta_version() != meta_http_versions(),
        meta_version() != meta_invocation_controls(),
        meta_version() != meta_scheme(),
        meta_version() != meta_service_id(),
        meta_version() != meta_instance_id(),
        meta_service_id() != meta_http_bindings(),
        meta_service_id() != meta_http_versions(),
        meta_service_id() != meta_invocation_controls(),
        meta_service_id() != meta_instance_id(),
        meta_scheme() != meta_service_id(),
        meta_scheme() != meta_instance_id(),
        meta_scheme() != meta_http_bindings(),
        meta_scheme() != meta_http_versions(),
        meta_scheme() != meta_invocation_controls(),
        meta_instance_id() != meta_http_bindings(),
        meta_instance_id() != meta_http_versions(),
        meta_instance_id() != meta_invocation_controls(),
        "fusen.base_path"@ != meta_http_bindings(),
        "fusen.base_path"@ != meta_http_versions(),
        "fusen.base_path"@ != meta_invocation_controls(),
        "fusen.base_path"@ != meta_version(),
        "fusen.base_path"@ != meta_service_id(),
        "fusen.base_path"@ != meta_instance_id(),
        "fusen.base_path"@ != meta_scheme(),
        "fusen.group"@ != meta_http_bindings(),
        "fusen.group"@ != meta_http_versions(),
        "fusen.group"@ != meta_invocation_controls(),
        "fusen.group"@ != meta_version(),
        "fusen.group"@ != meta_service_id(),
        "fusen.group"@ != meta_instance_id(),
        "fusen.group"@ != meta_scheme(),
{
    reveal_strlit("fusen.scheme");
    reveal_strlit("fusen.base_path");
    reveal_strlit("fusen.service_id");
    reveal_strlit("fusen.version");
    reveal_strlit("fusen.group");
    reveal_strlit("fusen.instance_id");
    reveal_strlit("fusen.http.bindings");
    reveal_strlit("fusen.http.versions");
    reveal_strlit("fusen.invocation-controls");
    assert(meta_http_bindings()[11] != meta_http_versions()[11]);
    assert(meta_scheme().len() == 12);
    assert("fusen.base_path"@.len() == 15);
    assert(meta_service_id().len() == 16);
    assert(meta_version().len() == 13);
    assert("fusen.group"@.len() == 11);
    assert(meta_instance_id().len() == 17);
    assert(meta_http_bindings().len() == 19);
    assert(meta_http_versions().len() == 19);
    assert(meta_invocation_controls().len() == 25);
}

/// Discovery reads back what a registration publishes. For any metadata list with one
/// entry per key that describes the registered metadata of `r` (as the instance that
/// `build_instance` returns does), the decoded capabilities are the registration's, the
/// instance identifier and scheme entries are the registration's, and the metadata
/// matches the registration's own selector. This needs the registration's own metadata
/// not to claim the invocation-control key when the capabilities do not, nor a version
/// when the selector has none: those entries are published as given.
pub proof fn lemma_registration_round_trip(
    r: Registration,
    scheme: Seq<char>,
    path: Seq<char>,
    metadata: Seq<(Seq<char>, Seq<char>)>,
    convention: NacosConvention,
)
    requires
        capabilities_wf(r.spec_capabilities()),
        unique_keys(metadata),
        as_map(metadata) == registered_metadata(r, scheme, path),
        !r.spec_capabilities().invocation_controls ==> !user_registration_metadata(r).contains_key(meta_invocation_controls()),
        r.spec_selector().version is None ==> !user_registration_metadata(r).contains_key(meta_version()),
    ensures
        decoded_capabilities(metadata, convention) == Some(r.spec_capabilities()),
        lookup(metadata, meta_instance_id()) == Some(r.spec_instance_id()),
        lookup(metadata, meta_scheme()) == Some(scheme),
        matches_selector_spec(metadata, r.spec_selector().service_id, r.spec_selector().version, convention),
{
    let caps = r.spec_capabilities();
    lemma_reserved_keys_distinct();
    reveal_strlit("v1");
    lemma_lookup_as_map(metadata, meta_http_bindings());
    lemma_lookup_as_map(metadata, meta_http_versions());
    lemma_lookup_as_map(metadata, meta_invocation_controls());
    lemma_lookup_as_map(metadata, meta_instance_id());
    lemma_lookup_as_map(metadata, meta_scheme());
    lemma_lookup_as_map(metadata, meta_service_id());
    lemma_lookup_as_map(metadata, meta_version());
    assert(lookup(metadata, meta_http_bindings()) == Some(join_commas(caps.bindings)));
    assert(lookup(metadata, meta_http_versions()) == Some(versions_text(caps.http1_1, caps.http2)));
    if caps.invocation_controls {
        assert(lookup(metadata, meta_invocation_controls()) == Some("v1"@));
    } else {
        assert(lookup(metadata, meta_invocation_controls()) is None);
    }
    lemma_bindings_text(caps.bindings);
    lemma_versions_text(caps.http1_1, caps.http2);
    lemma_sort_sorted_identity(caps.bindings);
    let decoded = decoded_capabilities(metadata, convention);
    assert(decoded == Some(EndpointCapabilitiesView {
        http1_1: caps.http1_1,
        http2: caps.http2,
        bindings: caps.bindings,
        invocation_controls: caps.invocation_controls,
    }));
}

/// Discovery never hands out reserved metadata: no metadata key of a discovered
/// instance lies in the `fusen.` namespace.
pub proof fn lemma_discovered_metadata_is_unreserved(
    instances: Seq<NacosInstance>,
    selector: ServiceSelector,
    convention: NacosConvention,
)
    ensures
        forall|i: int, j: int| 0 <= i < discovered_instances(instances, selector, convention).len()
            && 0 <= j < discovered_instances(instances, selector, convention)[i].metadata.len()
            ==> !is_reserved_key(#[trigger] discovered_instances(instances, selector, convention)[i].metadata[j].0),
    decreases instances.len(),
{
    if instances.len() > 0 {
        lemma_discovered_metadata_is_unreserved(instances.drop_last(), selector, convention);
        let last = instances.last();
        let earlier = discovered_instances(instances.drop_last(), selector, convention);
        let all = discovered_instances(instances, selector, convention);
        lemma_keep_satisfies(pairs_view(last.metadata@),
            |entry: (Seq<char>, Seq<char>)| !is_reserved_key(entry.0));
        assert forall|i: int, j: int| 0 <= i < all.len() && 0 <= j < all[i].metadata.len()
            implies !is_reserved_key(#[trigger] all[i].metadata[j].0) by {
            if i < earlier.len() {
                assert(all[i] == earlier[i]);
            } else {
                assert(all[i] == discovered_instance(last, convention)->Some_0);
                let user = keep(pairs_view(last.metadata@), |entry: (Seq<char>, Seq<char>)| !is_reserved_key(entry.0));
                assert(all[i].metadata == user);
                assert(!is_reserved_key(user[j].0));
            }
        }
    }
}

/// Joining the comma-separated pieces of a text with commas gives the text back.
pub proof fn lemma_join_split(v: Seq<char>)
    ensures
        join_commas(split_on(v, ',')) == v,
    decreases v.len(),
{
    if v.len() == 0 {
        assert(split_on(v, ',') == seq![Seq::<char>::empty()]);
        assert(v =~= Seq::<char>::empty());
    } else {
        let w = v.drop_last();
        lemma_join_split(w);
        crate::chars::lemma_split_nonempty(w, ',');
        let p = split_on(w, ',');
        if v.last() == ',' {
            let q = p.push(Seq::<char>::empty());
            assert(q.drop_last() =~= p);
            assert(join_commas(q) =~= join_commas(p) + seq![','] + Seq::<char>::empty());
            assert(w.push(',') =~= v);
        } else {
            let q = p.update(p.len() - 1, p.last().push(v.last()));
            if p.len() == 1 {
                assert(join_commas(q) == q[0]);
                assert(join_commas(p) == p[0]);
                assert(q[0] =~= p[0].push(v.last()));
            } else {
                assert(q.drop_last() =~= p.drop_last());
                assert(join_commas(q) =~= join_commas(p.drop_last()) + seq![','] + p.last().push(v.last()));
                assert(join_commas(p) == join_commas(p.drop_last()) + seq![','] + p.last());
            }
            assert(w.push(v.last()) =~= v);
        }
    }
}

/// Decoding a binding list keeps every identifier: joining the decoded bindings with
/// commas gives the metadata text back, and each decoded binding is a valid, distinct
/// identifier.
pub proof fn lemma_decoded_bindings_keep_the_text(v: Seq<char>)
    ensures
        decoded_bindings(v) matches Some(b) ==> {
            &&& join_commas(b) == v
            &&& forall|i: int| 0 <= i < b.len() ==> is_binding_id(#[trigger] b[i])
            &&& distinct(b)
        },
{
    lemma_join_split(v);
}

} // verus!
