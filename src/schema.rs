use vstd::prelude::*;

verus! {

/// The two instrument kinds a descriptor can declare.
#[derive(Clone, Copy, Debug, PartialEq, Eq, Structural)]
pub enum MetricKind {
    Counter,
    Histogram,
}

/// One field of a metrics container, as declared in the schema.
///
/// `field_type` is the field's type as written; `buckets` holds the bucket
/// boundaries as literal text, passed through to the backend unmodified.
#[derive(Clone, Debug)]
pub struct MetricDescriptor {
    pub field_name: String,
    pub field_type: String,
    pub kind: MetricKind,
    pub metric_name: String,
    pub help: String,
    pub label_names: Vec<String>,
    pub buckets: Option<Vec<String>>,
}

/// A container of instruments: its type name and its fields, in order.
#[derive(Clone, Debug)]
pub struct ContainerSchema {
    pub container_name: String,
    pub descriptors: Vec<MetricDescriptor>,
}

/// A schema that no code can be generated from. `descriptor` is the index of
/// the offending descriptor, `label` the index of the offending label name.
#[derive(Clone, Copy, Debug, PartialEq, Eq, Structural)]
pub enum SchemaError {
    /// A histogram without bucket boundaries, or with an empty list of them.
    MissingBuckets { descriptor: usize },
    /// A counter that declares bucket boundaries.
    UnexpectedBuckets { descriptor: usize },
    /// A label name that is not an identifier.
    InvalidLabel { descriptor: usize, label: usize },
    /// A label name that already occurs earlier in the same descriptor.
    DuplicateLabel { descriptor: usize, label: usize },
}

pub open spec fn is_ident_start(c: char) -> bool {
    ('a' <= c && c <= 'z') || ('A' <= c && c <= 'Z') || c == '_'
}

pub open spec fn is_ident_continue(c: char) -> bool {
    is_ident_start(c) || ('0' <= c && c <= '9')
}

/// An ASCII identifier: a letter or `_`, then letters, digits or `_`; a lone
/// `_` is no identifier.
pub open spec fn is_ident(s: Seq<char>) -> bool {
    &&& s.len() > 0
    &&& is_ident_start(s[0])
    &&& forall|i: int| 1 <= i < s.len() ==> is_ident_continue(#[trigger] s[i])
    &&& s != seq!['_']
}

/// The kind that a field's declared type stands for: an integer counter
/// vector by its name, anything else a histogram vector.
pub open spec fn kind_of_type(first_segment: Seq<char>) -> MetricKind {
    if first_segment == "IntCounterVec"@ {
        MetricKind::Counter
    } else {
        MetricKind::Histogram
    }
}

/// The first fault among the first `n` label names of descriptor `d`.
pub open spec fn label_error(labels: Seq<String>, n: nat, d: usize) -> Option<SchemaError>
    decreases n,
{
    if n == 0 {
        None
    } else {
        match label_error(labels, (n - 1) as nat, d) {
            Some(e) => Some(e),
            None => {
                let j = n - 1;
                if !is_ident(labels[j]@) {
                    Some(SchemaError::InvalidLabel { descriptor: d, label: j as usize })
                } else if exists|k: int| 0 <= k < j && labels[k]@ == labels[j]@ {
                    Some(SchemaError::DuplicateLabel { descriptor: d, label: j as usize })
                } else {
                    None
                }
            },
        }
    }
}

/// The fault of descriptor `desc`, standing at index `d`: its bucket
/// boundaries first, then its label names.
pub open spec fn descriptor_error(desc: MetricDescriptor, d: usize) -> Option<SchemaError> {
    match desc.kind {
        MetricKind::Histogram => match desc.buckets {
            None => Some(SchemaError::MissingBuckets { descriptor: d }),
            Some(b) => if b@.len() == 0 {
                Some(SchemaError::MissingBuckets { descriptor: d })
            } else {
                label_error(desc.label_names@, desc.label_names@.len(), d)
            },
        },
        MetricKind::Counter => match desc.buckets {
            Some(_) => Some(SchemaError::UnexpectedBuckets { descriptor: d }),
            None => label_error(desc.label_names@, desc.label_names@.len(), d),
        },
    }
}

/// The first fault among the first `n` descriptors.
pub open spec fn schema_error_upto(ds: Seq<MetricDescriptor>, n: nat) -> Option<SchemaError>
    decreases n,
{
    if n == 0 {
        None
    } else {
        match schema_error_upto(ds, (n - 1) as nat) {
            Some(e) => Some(e),
            None => descriptor_error(ds[n - 1], (n - 1) as usize),
        }
    }
}

/// The first fault of a schema, in the order of its descriptors.
pub open spec fn schema_error(s: ContainerSchema) -> Option<SchemaError> {
    schema_error_upto(s.descriptors@, s.descriptors@.len())
}

fn is_ident_start_char(c: char) -> (r: bool)
    ensures
        r == is_ident_start(c),
{
    ('a' <= c && c <= 'z') || ('A' <= c && c <= 'Z') || c == '_'
}

/// Whether `s` is an identifier that can name a label.
pub fn is_identifier(s: &str) -> (r: bool)
    ensures
        r == is_ident(s@),
{
    let n = s.unicode_len();
    if n == 0 {
        return false;
    }
    let c0 = s.get_char(0);
    if !is_ident_start_char(c0) {
        return false;
    }
    if n == 1 && c0 == '_' {
        assert(s@ =~= seq!['_']);
        return false;
    }
    let mut i: usize = 1;
    while i < n
        invariant
            1 <= i <= n,
            n == s@.len(),
            forall|k: int| 1 <= k < i ==> is_ident_continue(#[trigger] s@[k]),
        decreases n - i,
    {
        let c = s.get_char(i);
        if !(is_ident_start_char(c) || ('0' <= c && c <= '9')) {
            return false;
        }
        i = i + 1;
    }
    proof {
        if n == 1 {
            assert(s@[0] != '_');
        }
        assert(s@ != seq!['_']) by {
            if s@ == seq!['_'] {
                assert(s@[0] == '_');
            }
        }
    }
    true
}

/// The kind that a field's type stands for, given the first segment of its
/// path.
pub fn kind_for_type(first_segment: &str) -> (r: MetricKind)
    ensures
        r == kind_of_type(first_segment@),
{
    let name = String::from_str("IntCounterVec");
    let seg = first_segment.to_owned();
    if seg == name {
        MetricKind::Counter
    } else {
        MetricKind::Histogram
    }
}

/// The first fault among the label names of the descriptor at index `d`.
pub fn check_labels(labels: &Vec<String>, d: usize) -> (r: Option<SchemaError>)
    ensures
        r == label_error(labels@, labels@.len(), d),
{
    let n = labels.len();
    let mut j: usize = 0;
    while j < n
        invariant
            j <= n,
            n == labels@.len(),
            label_error(labels@, j as nat, d).is_none(),
        decreases n - j,
    {
        if !is_identifier(labels[j].as_str()) {
            proof {
                lemma_label_error_sticks(labels@, (j + 1) as nat, labels@.len(), d);
            }
            return Some(SchemaError::InvalidLabel { descriptor: d, label: j });
        }
        let mut k: usize = 0;
        while k < j
            invariant
                k <= j < n,
                n == labels@.len(),
                forall|m: int| 0 <= m < k ==> labels@[m]@ != labels@[j as int]@,
                is_ident(labels@[j as int]@),
                label_error(labels@, j as nat, d).is_none(),
            decreases j - k,
        {
            if labels[k] == labels[j] {
                proof {
                    assert(labels@[k as int]@ == labels@[j as int]@);
                    lemma_label_error_sticks(labels@, (j + 1) as nat, labels@.len(), d);
                }
                return Some(SchemaError::DuplicateLabel { descriptor: d, label: j });
            }
            k = k + 1;
        }
        j = j + 1;
    }
    None
}

/// The fault of the descriptor `desc`, standing at index `d`.
pub fn check_descriptor(desc: &MetricDescriptor, d: usize) -> (r: Option<SchemaError>)
    ensures
        r == descriptor_error(*desc, d),
{
    match desc.kind {
        MetricKind::Histogram => match &desc.buckets {
            None => Some(SchemaError::MissingBuckets { descriptor: d }),
            Some(b) => if b.len() == 0 {
                Some(SchemaError::MissingBuckets { descriptor: d })
            } else {
                check_labels(&desc.label_names, d)
            },
        },
        MetricKind::Counter => match &desc.buckets {
            Some(_) => Some(SchemaError::UnexpectedBuckets { descriptor: d }),
            None => check_labels(&desc.label_names, d),
        },
    }
}

/// Checks a schema: `Ok` exactly when no descriptor has a fault, else the
/// first fault.
pub fn validate(schema: &ContainerSchema) -> (r: Result<(), SchemaError>)
    ensures
        r == match schema_error(*schema) {
            None => Ok(()),
            Some(e) => Err(e),
        },
{
    let n = schema.descriptors.len();
    let mut i: usize = 0;
    while i < n
        invariant
            i <= n,
            n == schema.descriptors@.len(),
            schema_error_upto(schema.descriptors@, i as nat).is_none(),
        decreases n - i,
    {
        match check_descriptor(&schema.descriptors[i], i) {
            Some(e) => {
                proof {
                    lemma_schema_error_sticks(schema.descriptors@, (i + 1) as nat, n as nat);
                }
                return Err(e);
            },
            None => {},
        }
        i = i + 1;
    }
    Ok(())
}

/// A histogram without bucket boundaries makes the whole schema faulty,
/// wherever it stands.
pub proof fn lemma_histogram_without_buckets_rejected(schema: ContainerSchema, i: int)
    requires
        0 <= i < schema.descriptors@.len(),
        schema.descriptors@[i].kind == MetricKind::Histogram,
        match schema.descriptors@[i].buckets {
            None => true,
            Some(b) => b@.len() == 0,
        },
    ensures
        schema_error(schema).is_some(),
{
    lemma_fault_propagates(schema.descriptors@, i, schema.descriptors@.len());
}

proof fn lemma_label_error_sticks(labels: Seq<String>, m: nat, n: nat, d: usize)
    requires
        m <= n,
        label_error(labels, m, d).is_some(),
    ensures
        label_error(labels, n, d) == label_error(labels, m, d),
    decreases n,
{
    if n > m {
        lemma_label_error_sticks(labels, m, (n - 1) as nat, d);
    }
}

proof fn lemma_schema_error_sticks(ds: Seq<MetricDescriptor>, m: nat, n: nat)
    requires
        m <= n,
        schema_error_upto(ds, m).is_some(),
    ensures
        schema_error_upto(ds, n) == schema_error_upto(ds, m),
    decreases n,
{
    if n > m {
        lemma_schema_error_sticks(ds, m, (n - 1) as nat);
    }
}

proof fn lemma_fault_propagates(ds: Seq<MetricDescriptor>, i: int, n: nat)
    requires
        0 <= i < n <= ds.len(),
        descriptor_error(ds[i], i as usize).is_some(),
    ensures
        schema_error_upto(ds, n).is_some(),
    decreases n,
{
    if n - 1 > i {
        lemma_fault_propagates(ds, i, (n - 1) as nat);
    }
}

} // verus!
