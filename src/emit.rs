use vstd::prelude::*;
use crate::schema::{ContainerSchema, MetricDescriptor, MetricKind};

verus! {

/// The text that stands for `c` inside a Rust string literal.
pub open spec fn escape_char(c: char) -> Seq<char> {
    if c == '"' {
        seq!['\\', '"']
    } else if c == '\\' {
        seq!['\\', '\\']
    } else if c == '\r' {
        seq!['\\', 'r']
    } else {
        seq![c]
    }
}

pub open spec fn escaped(s: Seq<char>) -> Seq<char>
    decreases s.len(),
{
    if s.len() == 0 {
        Seq::empty()
    } else {
        escaped(s.drop_last()) + escape_char(s.last())
    }
}

/// A Rust string literal whose value is `s`.
pub open spec fn string_literal(s: Seq<char>) -> Seq<char> {
    seq!['"'] + escaped(s) + seq!['"']
}

/// Relies on `String::push`: the character is added at the end.
#[verifier::external_body]
fn push_char(s: &mut String, c: char)
    ensures
        final(s)@ == old(s)@.push(c),
{
    s.push(c);
}

/// Writes `s` as a Rust string literal.
pub fn quoted(s: &str) -> (r: String)
    ensures
        r@ == string_literal(s@),
{
    let n = s.unicode_len();
    let mut out = String::new();
    let mut i: usize = 0;
    while i < n
        invariant
            i <= n,
            n == s@.len(),
            out@ == escaped(s@.take(i as int)),
        decreases n - i,
    {
        let c = s.get_char(i);
        if c == '"' {
            out.append("\\\"");
        } else if c == '\\' {
            out.append("\\\\");
        } else if c == '\r' {
            out.append("\\r");
        } else {
            push_char(&mut out, c);
        }
        proof {
            reveal_strlit("\\\"");
            reveal_strlit("\\\\");
            reveal_strlit("\\r");
            assert(s@.take(i + 1).drop_last() =~= s@.take(i as int));
            assert(out@ =~= escaped(s@.take(i + 1)));
        }
        i = i + 1;
    }
    assert(s@.take(n as int) =~= s@);
    let mut r = String::from_str("\"");
    r.append(out.as_str());
    r.append("\"");
    proof {
        reveal_strlit("\"");
        assert(r@ =~= string_literal(s@));
    }
    r
}

/// One field declaration per label, in declared order.
pub open spec fn field_lines(labels: Seq<String>, n: nat) -> Seq<char>
    decreases n,
{
    if n == 0 {
        Seq::empty()
    } else {
        field_lines(labels, (n - 1) as nat) + "    "@ + labels[n - 1]@ + ": String,\n"@
    }
}

/// One reference to a label field per label, in declared order.
pub open spec fn value_refs(labels: Seq<String>, n: nat) -> Seq<char>
    decreases n,
{
    if n == 0 {
        Seq::empty()
    } else {
        value_refs(labels, (n - 1) as nat) + value_ref(labels[n - 1])
    }
}

/// The entry of the `values` list for the label `l`.
pub open spec fn value_ref(l: String) -> Seq<char> {
    "&self."@ + l@ + ", "@
}

proof fn lemma_value_refs_prefix(a: Seq<String>, b: Seq<String>, n: nat)
    requires
        n <= a.len(),
        n <= b.len(),
        forall|k: int| 0 <= k < n ==> a[k] == b[k],
    ensures
        value_refs(a, n) == value_refs(b, n),
    decreases n,
{
    if n > 0 {
        lemma_value_refs_prefix(a, b, (n - 1) as nat);
    }
}

/// The `values` list of a label set holds the value of each label exactly
/// once, at the place of that label in the declared order: the entries of
/// `n` labels are those of the labels before `i`, then the one of `i`, then
/// those of the labels after it.
pub proof fn lemma_values_in_declared_order(labels: Seq<String>, i: int, n: nat)
    requires
        0 <= i < n <= labels.len(),
    ensures
        value_refs(labels, n) == value_refs(labels, i as nat) + value_ref(labels[i])
            + value_refs(labels.subrange(i + 1, n as int), (n - i - 1) as nat),
    decreases n,
{
    let rest = labels.subrange(i + 1, n as int);
    if n == i + 1 {
        assert(value_refs(rest, 0) == Seq::<char>::empty());
        assert(value_refs(labels, n) =~= value_refs(labels, i as nat) + value_ref(labels[i])
            + value_refs(rest, 0));
    } else {
        let shorter = labels.subrange(i + 1, n - 1);
        lemma_values_in_declared_order(labels, i, (n - 1) as nat);
        lemma_value_refs_prefix(shorter, rest, (n - i - 2) as nat);
        assert(rest[n - i - 2] == labels[n - 1]);
        let a = value_refs(labels, i as nat);
        let v = value_ref(labels[i]);
        let r = value_refs(shorter, (n - i - 2) as nat);
        let last = value_ref(labels[n - 1]);
        assert(value_refs(labels, n) == a + v + r + last);
        assert(value_refs(rest, (n - i - 1) as nat) == r + last);
        assert(a + v + r + last =~= a + v + (r + last));
    }
}

/// The label names as string literals, in declared order.
pub open spec fn label_literals(labels: Seq<String>, n: nat) -> Seq<char>
    decreases n,
{
    if n == 0 {
        Seq::empty()
    } else {
        label_literals(labels, (n - 1) as nat) + string_literal(labels[n - 1]@) + ", "@
    }
}

/// The bucket boundaries, as written, in order.
pub open spec fn bucket_items(buckets: Seq<String>, n: nat) -> Seq<char>
    decreases n,
{
    if n == 0 {
        Seq::empty()
    } else {
        bucket_items(buckets, (n - 1) as nat) + buckets[n - 1]@ + ", "@
    }
}

/// The label-set type of one instrument: a struct with one `String` field per
/// label, built through a builder that asks for each of them, and a `values`
/// method that lists the values in the order the labels were declared.
pub open spec fn label_set_text(set_name: Seq<char>, labels: Seq<String>) -> Seq<char> {
    "#[derive(::bon::Builder)]\nstruct "@ + set_name + " {\n"@ + field_lines(
        labels,
        labels.len(),
    ) + "}\n\nimpl "@ + set_name + " {\n    fn values(&self) -> Vec<&str> {\n        vec!["@
        + value_refs(labels, labels.len()) + "]\n    }\n}\n\n"@
}

fn emit_field_lines(labels: &Vec<String>) -> (r: String)
    ensures
        r@ == field_lines(labels@, labels@.len()),
{
    let mut r = String::new();
    let mut i: usize = 0;
    while i < labels.len()
        invariant
            i <= labels@.len(),
            r@ == field_lines(labels@, i as nat),
        decreases labels@.len() - i,
    {
        r.append("    ");
        r.append(labels[i].as_str());
        r.append(": String,\n");
        i = i + 1;
    }
    r
}

fn emit_value_refs(labels: &Vec<String>) -> (r: String)
    ensures
        r@ == value_refs(labels@, labels@.len()),
{
    let mut r = String::new();
    let mut i: usize = 0;
    while i < labels.len()
        invariant
            i <= labels@.len(),
            r@ == value_refs(labels@, i as nat),
        decreases labels@.len() - i,
    {
        r.append("&self.");
        r.append(labels[i].as_str());
        r.append(", ");
        i = i + 1;
    }
    r
}

fn emit_label_literals(labels: &Vec<String>) -> (r: String)
    ensures
        r@ == label_literals(labels@, labels@.len()),
{
    let mut r = String::new();
    let mut i: usize = 0;
    while i < labels.len()
        invariant
            i <= labels@.len(),
            r@ == label_literals(labels@, i as nat),
        decreases labels@.len() - i,
    {
        let lit = quoted(labels[i].as_str());
        r.append(lit.as_str());
        r.append(", ");
        i = i + 1;
    }
    r
}

fn emit_bucket_items(buckets: &Vec<String>) -> (r: String)
    ensures
        r@ == bucket_items(buckets@, buckets@.len()),
{
    let mut r = String::new();
    let mut i: usize = 0;
    while i < buckets.len()
        invariant
            i <= buckets@.len(),
            r@ == bucket_items(buckets@, i as nat),
        decreases buckets@.len() - i,
    {
        r.append(buckets[i].as_str());
        r.append(", ");
        i = i + 1;
    }
    r
}

/// Writes the label-set type named `set_name` for the labels `labels`.
pub fn emit_label_set(set_name: &str, labels: &Vec<String>) -> (r: String)
    ensures
        r@ == label_set_text(set_name@, labels@),
{
    let mut r = String::from_str("#[derive(::bon::Builder)]\nstruct ");
    r.append(set_name);
    r.append(" {\n");
    let fields = emit_field_lines(labels);
    r.append(fields.as_str());
    r.append("}\n\nimpl ");
    r.append(set_name);
    r.append(" {\n    fn values(&self) -> Vec<&str> {\n        vec![");
    let refs = emit_value_refs(labels);
    r.append(refs.as_str());
    r.append("]\n    }\n}\n\n");
    r
}

/// The options of one instrument: name and help for a counter; name, help
/// and bucket boundaries for a histogram.
pub open spec fn opts_text(d: MetricDescriptor) -> Seq<char> {
    match d.kind {
        MetricKind::Counter => "Opts::new("@ + string_literal(d.metric_name@) + ", "@
            + string_literal(d.help@) + ")"@,
        MetricKind::Histogram => "HistogramOpts::new("@ + string_literal(d.metric_name@) + ", "@
            + string_literal(d.help@) + ").buckets(vec!["@ + bucket_items(
            bucket_list(d),
            bucket_list(d).len(),
        ) + "])"@,
    }
}

/// The bucket boundaries of a descriptor, none where it declares none.
pub open spec fn bucket_list(d: MetricDescriptor) -> Seq<String> {
    match d.buckets {
        Some(b) => b@,
        None => Seq::empty(),
    }
}

/// The statement that builds the instrument of one descriptor from its
/// options and its label names.
pub open spec fn initializer_text(d: MetricDescriptor) -> Seq<char> {
    "        let "@ + d.field_name@ + " = "@ + d.field_type@ + "::new(\n            "@ + opts_text(d)
        + ",\n            &["@ + label_literals(d.label_names@, d.label_names@.len())
        + "],\n        ).unwrap();\n"@
}

/// The handle type that the accessor of an instrument of kind `k` returns.
pub open spec fn handle_type(k: MetricKind) -> Seq<char> {
    match k {
        MetricKind::Counter => "GenericCounter<AtomicU64>"@,
        MetricKind::Histogram => "Histogram"@,
    }
}

/// The accessor of one instrument: named after its field with `_with`
/// appended, it takes the field's label set and returns the handle for those
/// label values, typed by the instrument's kind.
pub open spec fn accessor_text(field: Seq<char>, set_name: Seq<char>, k: MetricKind) -> Seq<char> {
    "    fn "@ + field + "_with(&self, values: "@ + set_name + ") -> "@ + handle_type(k)
        + " {\n        self."@ + field + ".with_label_values(&values.values())\n    }\n"@
}

fn emit_opts(d: &MetricDescriptor) -> (r: String)
    ensures
        r@ == opts_text(*d),
{
    let name = quoted(d.metric_name.as_str());
    let help = quoted(d.help.as_str());
    match d.kind {
        MetricKind::Counter => {
            let mut r = String::from_str("Opts::new(");
            r.append(name.as_str());
            r.append(", ");
            r.append(help.as_str());
            r.append(")");
            r
        },
        MetricKind::Histogram => {
            let items = match &d.buckets {
                Some(b) => emit_bucket_items(b),
                None => String::new(),
            };
            let mut r = String::from_str("HistogramOpts::new(");
            r.append(name.as_str());
            r.append(", ");
            r.append(help.as_str());
            r.append(").buckets(vec![");
            r.append(items.as_str());
            r.append("])");
            r
        },
    }
}

/// Writes the statement that builds the instrument of `d`.
pub fn emit_initializer(d: &MetricDescriptor) -> (r: String)
    ensures
        r@ == initializer_text(*d),
{
    let mut r = String::from_str("        let ");
    r.append(d.field_name.as_str());
    r.append(" = ");
    r.append(d.field_type.as_str());
    r.append("::new(\n            ");
    let opts = emit_opts(d);
    r.append(opts.as_str());
    r.append(",\n            &[");
    let labels = emit_label_literals(&d.label_names);
    r.append(labels.as_str());
    r.append("],\n        ).unwrap();\n");
    r
}

/// Writes the accessor of the field `field`, whose label set is named
/// `set_name` and whose instrument has kind `k`.
pub fn emit_accessor(field: &str, set_name: &str, k: MetricKind) -> (r: String)
    ensures
        r@ == accessor_text(field@, set_name@, k),
{
    let mut r = String::from_str("    fn ");
    r.append(field);
    r.append("_with(&self, values: ");
    r.append(set_name);
    r.append(") -> ");
    match k {
        MetricKind::Counter => r.append("GenericCounter<AtomicU64>"),
        MetricKind::Histogram => r.append("Histogram"),
    }
    r.append(" {\n        self.");
    r.append(field);
    r.append(".with_label_values(&values.values())\n    }\n");
    r
}

/// The statements that build the first `n` instruments, in order.
pub open spec fn initializers(ds: Seq<MetricDescriptor>, n: nat) -> Seq<char>
    decreases n,
{
    if n == 0 {
        Seq::empty()
    } else {
        initializers(ds, (n - 1) as nat) + initializer_text(ds[n - 1])
    }
}

/// The fields of the container literal, in order.
pub open spec fn field_inits(ds: Seq<MetricDescriptor>, n: nat) -> Seq<char>
    decreases n,
{
    if n == 0 {
        Seq::empty()
    } else {
        field_inits(ds, (n - 1) as nat) + "            "@ + ds[n - 1].field_name@ + ",\n"@
    }
}

/// One registration per instrument, in order; the first that fails ends the
/// constructor with its error, and those made before it stay in the registry.
pub open spec fn registrations(ds: Seq<MetricDescriptor>, n: nat) -> Seq<char>
    decreases n,
{
    if n == 0 {
        Seq::empty()
    } else {
        registrations(ds, (n - 1) as nat) + registration_line(ds[n - 1])
    }
}

/// The statement that registers the instrument of `d`, returning early with
/// the registry's error.
pub open spec fn registration_line(d: MetricDescriptor) -> Seq<char> {
    "        registry.register(Box::new(metrics."@ + d.field_name@ + ".clone()))?;\n"@
}

proof fn lemma_registrations_prefix(a: Seq<MetricDescriptor>, b: Seq<MetricDescriptor>, n: nat)
    requires
        n <= a.len(),
        n <= b.len(),
        forall|k: int| 0 <= k < n ==> a[k] == b[k],
    ensures
        registrations(a, n) == registrations(b, n),
    decreases n,
{
    if n > 0 {
        lemma_registrations_prefix(a, b, (n - 1) as nat);
    }
}

/// The constructor registers every instrument exactly once, in the order of
/// the descriptors: the registrations of `n` descriptors are those of the
/// ones before `i`, then the one of `i`, then those of the ones after it.
pub proof fn lemma_each_registered_once_in_order(ds: Seq<MetricDescriptor>, i: int, n: nat)
    requires
        0 <= i < n <= ds.len(),
    ensures
        registrations(ds, n) == registrations(ds, i as nat) + registration_line(ds[i])
            + registrations(ds.subrange(i + 1, n as int), (n - i - 1) as nat),
    decreases n,
{
    let rest = ds.subrange(i + 1, n as int);
    if n == i + 1 {
        assert(registrations(rest, 0) == Seq::<char>::empty());
        assert(registrations(ds, n) =~= registrations(ds, i as nat) + registration_line(ds[i])
            + registrations(rest, 0));
    } else {
        let shorter = ds.subrange(i + 1, n - 1);
        lemma_each_registered_once_in_order(ds, i, (n - 1) as nat);
        lemma_registrations_prefix(shorter, rest, (n - i - 2) as nat);
        assert(rest[n - i - 2] == ds[n - 1]);
        let a = registrations(ds, i as nat);
        let l = registration_line(ds[i]);
        let r = registrations(shorter, (n - i - 2) as nat);
        let last = registration_line(ds[n - 1]);
        assert(registrations(ds, n) == a + l + r + last);
        assert(registrations(rest, (n - i - 1) as nat) == r + last);
        assert(a + l + r + last =~= a + l + (r + last));
    }
}

/// The accessors of the first `n` instruments, in order; the one of each
/// descriptor reads the instrument of that same descriptor.
pub open spec fn accessors(ds: Seq<MetricDescriptor>, names: Seq<Seq<char>>, n: nat) -> Seq<char>
    decreases n,
{
    if n == 0 {
        Seq::empty()
    } else {
        accessors(ds, names, (n - 1) as nat) + accessor_text(
            ds[n - 1].field_name@,
            names[n - 1],
            ds[n - 1].kind,
        )
    }
}

/// The label-set types of the first `n` instruments, in order.
pub open spec fn label_sets(ds: Seq<MetricDescriptor>, names: Seq<Seq<char>>, n: nat) -> Seq<
    char,
>
    decreases n,
{
    if n == 0 {
        Seq::empty()
    } else {
        label_sets(ds, names, (n - 1) as nat) + label_set_text(names[n - 1], ds[n - 1].label_names@)
    }
}

/// The constructor and the accessors of the container.
pub open spec fn impl_text(s: ContainerSchema, names: Seq<Seq<char>>) -> Seq<char> {
    let ds = s.descriptors@;
    "impl "@ + s.container_name@
        + " {\n    fn new(registry: &Registry) -> Result<Self, prometheus::Error> {\n"@
        + initializers(ds, ds.len()) + "\n        let metrics = Self {\n"@ + field_inits(
        ds,
        ds.len(),
    ) + "        };\n\n"@ + registrations(ds, ds.len()) + "\n        Ok(metrics)\n    }\n\n"@
        + accessors(ds, names, ds.len()) + "}\n"@
}

/// The whole generated unit: the label-set types, then the container's
/// constructor and accessors. `names[i]` names the label set of the `i`-th
/// descriptor.
pub open spec fn unit_text(s: ContainerSchema, names: Seq<Seq<char>>) -> Seq<char> {
    label_sets(s.descriptors@, names, s.descriptors@.len()) + impl_text(s, names)
}

fn emit_initializers(ds: &Vec<MetricDescriptor>) -> (r: String)
    ensures
        r@ == initializers(ds@, ds@.len()),
{
    let mut r = String::new();
    let mut i: usize = 0;
    while i < ds.len()
        invariant
            i <= ds@.len(),
            r@ == initializers(ds@, i as nat),
        decreases ds@.len() - i,
    {
        let t = emit_initializer(&ds[i]);
        r.append(t.as_str());
        i = i + 1;
    }
    r
}

fn emit_field_inits(ds: &Vec<MetricDescriptor>) -> (r: String)
    ensures
        r@ == field_inits(ds@, ds@.len()),
{
    let mut r = String::new();
    let mut i: usize = 0;
    while i < ds.len()
        invariant
            i <= ds@.len(),
            r@ == field_inits(ds@, i as nat),
        decreases ds@.len() - i,
    {
        r.append("            ");
        r.append(ds[i].field_name.as_str());
        r.append(",\n");
        i = i + 1;
    }
    r
}

fn emit_registrations(ds: &Vec<MetricDescriptor>) -> (r: String)
    ensures
        r@ == registrations(ds@, ds@.len()),
{
    let mut r = String::new();
    let mut i: usize = 0;
    while i < ds.len()
        invariant
            i <= ds@.len(),
            r@ == registrations(ds@, i as nat),
        decreases ds@.len() - i,
    {
        r.append("        registry.register(Box::new(metrics.");
        r.append(ds[i].field_name.as_str());
        r.append(".clone()))?;\n");
        i = i + 1;
    }
    r
}

fn emit_accessors(ds: &Vec<MetricDescriptor>, names: &Vec<String>) -> (r: String)
    requires
        names@.len() == ds@.len(),
    ensures
        r@ == accessors(ds@, names.deep_view(), ds@.len()),
{
    let mut r = String::new();
    let mut i: usize = 0;
    while i < ds.len()
        invariant
            i <= ds@.len(),
            names@.len() == ds@.len(),
            r@ == accessors(ds@, names.deep_view(), i as nat),
        decreases ds@.len() - i,
    {
        let t = emit_accessor(ds[i].field_name.as_str(), names[i].as_str(), ds[i].kind);
        r.append(t.as_str());
        i = i + 1;
    }
    r
}

fn emit_label_sets(ds: &Vec<MetricDescriptor>, names: &Vec<String>) -> (r: String)
    requires
        names@.len() == ds@.len(),
    ensures
        r@ == label_sets(ds@, names.deep_view(), ds@.len()),
{
    let mut r = String::new();
    let mut i: usize = 0;
    while i < ds.len()
        invariant
            i <= ds@.len(),
            names@.len() == ds@.len(),
            r@ == label_sets(ds@, names.deep_view(), i as nat),
        decreases ds@.len() - i,
    {
        let t = emit_label_set(names[i].as_str(), &ds[i].label_names);
        r.append(t.as_str());
        i = i + 1;
    }
    r
}

fn emit_impl(schema: &ContainerSchema, names: &Vec<String>) -> (r: String)
    requires
        names@.len() == schema.descriptors@.len(),
    ensures
        r@ == impl_text(*schema, names.deep_view()),
{
    let ds = &schema.descriptors;
    let mut r = String::from_str("impl ");
    r.append(schema.container_name.as_str());
    r.append(" {\n    fn new(registry: &Registry) -> Result<Self, prometheus::Error> {\n");
    let inits = emit_initializers(ds);
    r.append(inits.as_str());
    r.append("\n        let metrics = Self {\n");
    let fields = emit_field_inits(ds);
    r.append(fields.as_str());
    r.append("        };\n\n");
    let regs = emit_registrations(ds);
    r.append(regs.as_str());
    r.append("\n        Ok(metrics)\n    }\n\n");
    let accs = emit_accessors(ds, names);
    r.append(accs.as_str());
    r.append("}\n");
    r
}

/// Writes the whole unit for `schema`, with `names[i]` as the name of the
/// label set of the `i`-th descriptor.
pub fn emit_unit(schema: &ContainerSchema, names: &Vec<String>) -> (r: String)
    requires
        names@.len() == schema.descriptors@.len(),
    ensures
        r@ == unit_text(*schema, names.deep_view()),
{
    let mut r = emit_label_sets(&schema.descriptors, names);
    let body = emit_impl(schema, names);
    r.append(body.as_str());
    r
}

} // verus!
