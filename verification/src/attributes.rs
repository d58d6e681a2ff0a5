//! What the `#[at_arg(..)]` attributes decide of a command, response or
//! enum: the order in which fields (or variants) are written and read — by
//! their `position` where they have one, by their place in the declaration
//! otherwise, and in declaration order among equals —, the serialized
//! length bounds that follow from `len`, the number each enum variant stands
//! for, and which variant, if any, is an enum's default.
use vstd::prelude::*;

verus! {

/// Parsed attributes of `#[at_arg(..)]`
#[derive(Clone, Debug, PartialEq, Eq, Structural)]
pub struct ArgAttributes {
    pub value: Option<i64>,
    pub position: Option<usize>,
    pub len: Option<usize>,
    pub default: bool,
}

/// The place by which item `i` is ordered: its position attribute, or else
/// `i` itself.
pub open spec fn place(attrs: Seq<Option<ArgAttributes>>, i: int) -> int {
    match attrs[i] {
        Some(a) => match a.position {
            Some(p) => p as int,
            None => i,
        },
        None => i,
    }
}

/// Item `i` comes before item `j`: it has a smaller place, or the same place
/// and an earlier declaration.
pub open spec fn before(attrs: Seq<Option<ArgAttributes>>, i: int, j: int) -> bool {
    place(attrs, i) < place(attrs, j) || (place(attrs, i) == place(attrs, j) && i < j)
}

/// `order` lists items of `attrs` below `n`, each before the next.
pub open spec fn ordered(attrs: Seq<Option<ArgAttributes>>, order: Seq<usize>, n: int) -> bool {
    &&& forall|k: int| 0 <= k < order.len() ==> #[trigger] order[k] < n
    &&& forall|j: int, k: int|
        0 <= j < k < order.len() ==> before(attrs, #[trigger] order[j] as int, #[trigger] order[k] as int)
}

fn place_of(attrs: &[Option<ArgAttributes>], i: usize) -> (p: usize)
    requires
        i < attrs@.len(),
    ensures
        p == place(attrs@, i as int),
{
    match &attrs[i] {
        Some(a) => match a.position {
            Some(p) => p,
            None => i,
        },
        None => i,
    }
}

fn comes_before(attrs: &[Option<ArgAttributes>], i: usize, j: usize) -> (r: bool)
    requires
        i < attrs@.len(),
        j < attrs@.len(),
    ensures
        r == before(attrs@, i as int, j as int),
{
    let pi = place_of(attrs, i);
    let pj = place_of(attrs, j);
    pi < pj || (pi == pj && i < j)
}

/// The items of `attrs`, by index, in the order in which they are written:
/// every index once, sorted by place, declaration order breaking ties.
pub fn sorted_positions(attrs: &[Option<ArgAttributes>]) -> (order: Vec<usize>)
    ensures
        order@.len() == attrs@.len(),
        ordered(attrs@, order@, attrs@.len() as int),
        forall|i: usize| i < attrs@.len() ==> #[trigger] order@.contains(i),
{
    let n = attrs.len();
    let mut order: Vec<usize> = Vec::new();
    let mut i: usize = 0;
    while i < n
        invariant
            i <= n,
            n == attrs@.len(),
            order@.len() == i,
            ordered(attrs@, order@, i as int),
            forall|m: usize| m < i ==> #[trigger] order@.contains(m),
        decreases n - i,
    {
        let mut p: usize = 0;
        while p < order.len() && !comes_before(attrs, i, order[p])
            invariant
                p <= order@.len(),
                i < n,
                n == attrs@.len(),
                ordered(attrs@, order@, i as int),
                forall|k: int| 0 <= k < p ==> !before(attrs@, i as int, #[trigger] order@[k] as int),
            decreases order@.len() - p,
        {
            p += 1;
        }
        let ghost old_order = order@;
        proof {
            assert forall|k: int| 0 <= k < p implies before(attrs@, #[trigger] old_order[k] as int, i as int) by {
                assert(old_order[k] < i);
            }
            assert forall|k: int| p <= k < old_order.len() implies before(attrs@, i as int, #[trigger] old_order[k] as int) by {
                if k > p {
                    assert(before(attrs@, old_order[p as int] as int, old_order[k] as int));
                }
            }
        }
        order.insert(p, i);
        proof {
            assert(order@ =~= old_order.insert(p as int, i));
            assert forall|m: usize| m < i + 1 implies #[trigger] order@.contains(m) by {
                if m < i {
                    assert(old_order.contains(m));
                    let k = choose|k: int| 0 <= k < old_order.len() && old_order[k] == m;
                    if k < p {
                        assert(order@[k] == m);
                    } else {
                        assert(order@[k + 1] == m);
                    }
                } else {
                    assert(order@[p as int] == i);
                }
            }
        }
        i += 1;
    }
    order
}

/// What is known of the serialized length of a field: its `len` attribute,
/// whether it is a `&str`, and the lengths its type declares (plain and with
/// worst-case escaping).
#[derive(Clone, Copy, Debug, PartialEq, Eq, Structural)]
pub struct FieldLen {
    pub len: Option<usize>,
    pub is_ref_str: bool,
    pub ty_len: usize,
    pub ty_escaped_len: usize,
}

/// The length a struct field takes: a `&str` with a `len` attribute is quoted
/// (escaped, each character may take three bytes); another field with the
/// attribute takes that length; one without takes its type's length.
pub open spec fn struct_field_len(f: FieldLen, escaped: bool) -> nat {
    match f.len {
        Some(len) => if f.is_ref_str {
            if escaped {
                (3 * len + 2) as nat
            } else {
                (1 + len + 1) as nat
            }
        } else {
            len as nat
        },
        None => if escaped {
            f.ty_escaped_len as nat
        } else {
            f.ty_len as nat
        },
    }
}

/// The total length of the fields `fs` of a struct.
pub open spec fn struct_fields_len(fs: Seq<FieldLen>, escaped: bool) -> nat
    decreases fs.len(),
{
    if fs.len() == 0 {
        0
    } else {
        struct_fields_len(fs.drop_last(), escaped) + struct_field_len(fs.last(), escaped)
    }
}

/// The serialized length of a struct: `init_len` (the separators) and its
/// fields.
pub open spec fn struct_len_spec(fs: Seq<FieldLen>, init_len: nat, escaped: bool) -> nat {
    init_len + struct_fields_len(fs, escaped)
}

/// The length an enum variant's field takes: its `len` attribute (a `&str`
/// counted escaped when escaping), or else its type's length.
pub open spec fn enum_field_len(f: FieldLen, escaped: bool) -> nat {
    match f.len {
        Some(len) => if escaped && f.is_ref_str {
            (3 * len + 2) as nat
        } else {
            len as nat
        },
        None => if escaped {
            f.ty_escaped_len as nat
        } else {
            f.ty_len as nat
        },
    }
}

/// The length of a variant's fields, each followed by a separator.
pub open spec fn variant_len(fs: Seq<FieldLen>, escaped: bool) -> nat
    decreases fs.len(),
{
    if fs.len() == 0 {
        0
    } else {
        variant_len(fs.drop_last(), escaped) + enum_field_len(fs.last(), escaped) + 1
    }
}

/// The longest of the variants `vs` that have fields.
pub open spec fn longest_variant(vs: Seq<Option<Vec<FieldLen>>>, escaped: bool) -> nat
    decreases vs.len(),
{
    if vs.len() == 0 {
        0
    } else {
        let m = longest_variant(vs.drop_last(), escaped);
        match vs.last() {
            Some(fs) => if variant_len(fs@, escaped) < m {
                m
            } else {
                variant_len(fs@, escaped)
            },
            None => m,
        }
    }
}

/// The serialized length of an enum: its discriminant's and its longest
/// variant's.
pub open spec fn enum_len_spec(vs: Seq<Option<Vec<FieldLen>>>, repr_len: nat, escaped: bool) -> nat {
    repr_len + longest_variant(vs, escaped)
}

proof fn lemma_struct_fields_prefix(fs: Seq<FieldLen>, i: int, escaped: bool)
    requires
        0 <= i <= fs.len(),
    ensures
        struct_fields_len(fs.take(i), escaped) <= struct_fields_len(fs, escaped),
    decreases fs.len() - i,
{
    if i < fs.len() {
        lemma_struct_fields_prefix(fs, i + 1, escaped);
        assert(fs.take(i + 1).drop_last() =~= fs.take(i));
    } else {
        assert(fs.take(i) =~= fs);
    }
}

proof fn lemma_variant_prefix(fs: Seq<FieldLen>, i: int, escaped: bool)
    requires
        0 <= i <= fs.len(),
    ensures
        variant_len(fs.take(i), escaped) <= variant_len(fs, escaped),
    decreases fs.len() - i,
{
    if i < fs.len() {
        lemma_variant_prefix(fs, i + 1, escaped);
        assert(fs.take(i + 1).drop_last() =~= fs.take(i));
    } else {
        assert(fs.take(i) =~= fs);
    }
}

proof fn lemma_longest_prefix(vs: Seq<Option<Vec<FieldLen>>>, i: int, escaped: bool)
    requires
        0 <= i <= vs.len(),
    ensures
        longest_variant(vs.take(i), escaped) <= longest_variant(vs, escaped),
        forall|j: int|
            0 <= j < vs.len() && vs[j] is Some ==> variant_len(#[trigger] vs[j]->0@, escaped)
                <= longest_variant(vs, escaped),
    decreases vs.len() - i,
{
    if i < vs.len() {
        lemma_longest_prefix(vs, i + 1, escaped);
        assert(vs.take(i + 1).drop_last() =~= vs.take(i));
    } else {
        assert(vs.take(i) =~= vs);
        lemma_longest_each(vs, escaped);
    }
}

proof fn lemma_longest_each(vs: Seq<Option<Vec<FieldLen>>>, escaped: bool)
    ensures
        forall|j: int|
            0 <= j < vs.len() && vs[j] is Some ==> variant_len(#[trigger] vs[j]->0@, escaped)
                <= longest_variant(vs, escaped),
    decreases vs.len(),
{
    if vs.len() > 0 {
        lemma_longest_each(vs.drop_last(), escaped);
        assert forall|j: int| 0 <= j < vs.len() && vs[j] is Some implies variant_len(
            #[trigger] vs[j]->0@,
            escaped,
        ) <= longest_variant(vs, escaped) by {
            if j < vs.len() - 1 {
                assert(vs.drop_last()[j] == vs[j]);
            }
        }
    }
}

/// The serialized length of a struct with fields `fields`; see
/// `struct_len_spec`.
pub fn struct_len(fields: &[FieldLen], init_len: usize, escaped: bool) -> (n: usize)
    requires
        struct_len_spec(fields@, init_len as nat, escaped) <= usize::MAX,
    ensures
        n == struct_len_spec(fields@, init_len as nat, escaped),
{
    let mut total = init_len;
    let mut i: usize = 0;
    while i < fields.len()
        invariant
            i <= fields@.len(),
            total == init_len + struct_fields_len(fields@.take(i as int), escaped),
            struct_len_spec(fields@, init_len as nat, escaped) <= usize::MAX,
        decreases fields@.len() - i,
    {
        proof {
            lemma_struct_fields_prefix(fields@, i + 1, escaped);
            assert(fields@.take(i + 1).drop_last() =~= fields@.take(i as int));
        }
        let f = &fields[i];
        let len = match f.len {
            Some(len) => if f.is_ref_str {
                if escaped {
                    3 * len + 2
                } else {
                    1 + len + 1
                }
            } else {
                len
            },
            None => if escaped {
                f.ty_escaped_len
            } else {
                f.ty_len
            },
        };
        total = len + total;
        i += 1;
    }
    assert(fields@.take(fields@.len() as int) =~= fields@);
    total
}

/// The serialized length of an enum whose discriminant takes `repr_len`
/// bytes and whose variants have the fields `variants` (`None` for a variant
/// without fields); see `enum_len_spec`.
pub fn enum_len(variants: &[Option<Vec<FieldLen>>], repr_len: usize, escaped: bool) -> (n: usize)
    requires
        enum_len_spec(variants@, repr_len as nat, escaped) <= usize::MAX,
    ensures
        n == enum_len_spec(variants@, repr_len as nat, escaped),
{
    let mut longest: usize = 0;
    let mut i: usize = 0;
    proof {
        lemma_longest_each(variants@, escaped);
    }
    while i < variants.len()
        invariant
            i <= variants@.len(),
            longest == longest_variant(variants@.take(i as int), escaped),
            enum_len_spec(variants@, repr_len as nat, escaped) <= usize::MAX,
            forall|j: int|
                0 <= j < variants@.len() && variants@[j] is Some ==> variant_len(
                    #[trigger] variants@[j]->0@,
                    escaped,
                ) <= longest_variant(variants@, escaped),
        decreases variants@.len() - i,
    {
        proof {
            lemma_longest_prefix(variants@, i + 1, escaped);
            assert(variants@.take(i + 1).drop_last() =~= variants@.take(i as int));
        }
        match &variants[i] {
            Some(fields) => {
                let ghost bound = variant_len(fields@, escaped);
                assert(bound <= usize::MAX);
                let mut fields_len: usize = 0;
                let mut k: usize = 0;
                while k < fields.len()
                    invariant
                        k <= fields@.len(),
                        fields_len == variant_len(fields@.take(k as int), escaped),
                        bound == variant_len(fields@, escaped),
                        bound <= usize::MAX,
                    decreases fields@.len() - k,
                {
                    proof {
                        lemma_variant_prefix(fields@, k + 1, escaped);
                        assert(fields@.take(k + 1).drop_last() =~= fields@.take(k as int));
                    }
                    let f = &fields[k];
                    let len = match f.len {
                        Some(len) => if escaped && f.is_ref_str {
                            3 * len + 2
                        } else {
                            len
                        },
                        None => if escaped {
                            f.ty_escaped_len
                        } else {
                            f.ty_len
                        },
                    };
                    fields_len = fields_len + len + 1;
                    k += 1;
                }
                assert(fields@.take(fields@.len() as int) =~= fields@);
                if !(fields_len < longest) {
                    longest = fields_len;
                }
            },
            None => {},
        }
        i += 1;
    }
    assert(variants@.take(variants@.len() as int) =~= variants@);
    repr_len + longest
}

/// The number a variant stands for: its `value` attribute if it has one, or
/// else its own discriminant `own`.
pub fn variant_value(attrs: &Option<ArgAttributes>, own: i64) -> (v: i64)
    ensures
        v == match attrs {
            Some(a) => match a.value {
                Some(x) => x,
                None => own,
            },
            None => own,
        },
{
    match attrs {
        Some(a) => match a.value {
            Some(x) => x,
            None => own,
        },
        None => own,
    }
}

/// Variant `i` of `attrs` is marked `#[at_arg(default)]`.
pub open spec fn is_default_variant(attrs: Seq<Option<ArgAttributes>>, i: int) -> bool {
    attrs[i] matches Some(a) && a.default
}

/// The number of variants among the first `n` marked as the default.
pub open spec fn defaults_before(attrs: Seq<Option<ArgAttributes>>, n: int) -> nat
    decreases n,
{
    if n <= 0 {
        0
    } else {
        defaults_before(attrs, n - 1) + if is_default_variant(attrs, n - 1) {
            1nat
        } else {
            0nat
        }
    }
}

/// More than one variant is marked as the default.
#[derive(Debug, PartialEq, Eq, Structural)]
pub struct TooManyDefaults;

/// The variant that `Default` gives: the one marked `#[at_arg(default)]`, if
/// any; an enum may mark at most one.
pub fn default_variant(attrs: &[Option<ArgAttributes>]) -> (r: Result<Option<usize>, TooManyDefaults>)
    ensures
        r is Err <==> defaults_before(attrs@, attrs@.len() as int) > 1,
        r == Ok::<Option<usize>, TooManyDefaults>(None) <==> defaults_before(
            attrs@,
            attrs@.len() as int,
        ) == 0,
        r matches Ok(Some(i)) ==> i < attrs@.len() && is_default_variant(attrs@, i as int)
            && defaults_before(attrs@, attrs@.len() as int) == 1,
{
    let mut found: Option<usize> = None;
    let mut i: usize = 0;
    while i < attrs.len()
        invariant
            i <= attrs@.len(),
            defaults_before(attrs@, i as int) <= 1,
            found is None <==> defaults_before(attrs@, i as int) == 0,
            found matches Some(j) ==> j < i && is_default_variant(attrs@, j as int),
        decreases attrs@.len() - i,
    {
        let is_default = match &attrs[i] {
            Some(a) => a.default,
            None => false,
        };
        if is_default {
            if found.is_some() {
                proof {
                    lemma_defaults_grow(attrs@, i as int + 1, attrs@.len() as int);
                }
                return Err(TooManyDefaults);
            }
            found = Some(i);
        }
        i += 1;
    }
    Ok(found)
}

/// Counting the defaults over more variants counts no fewer.
proof fn lemma_defaults_grow(attrs: Seq<Option<ArgAttributes>>, m: int, n: int)
    requires
        0 <= m <= n,
    ensures
        defaults_before(attrs, m) <= defaults_before(attrs, n),
    decreases n - m,
{
    if m < n {
        lemma_defaults_grow(attrs, m, n - 1);
    }
}

/// The separators of a struct with `n` fields: one between each two.
pub fn separators_len(n: usize) -> (r: usize)
    ensures
        r == if n == 0 {
            0
        } else {
            n - 1
        },
{
    if n == 0 {
        0
    } else {
        n - 1
    }
}

/// The bytes a command takes besides its fields: its prefix, its name, its
/// termination, and a separator before the values when it has one.
pub fn command_len(prefix_len: usize, name_len: usize, termination_len: usize, value_sep: bool) -> (r: usize)
    requires
        prefix_len + name_len + termination_len + 1 <= usize::MAX,
    ensures
        r == prefix_len + name_len + termination_len + if value_sep {
            1int
        } else {
            0
        },
{
    let len = prefix_len + name_len + termination_len;
    if value_sep {
        len + 1
    } else {
        len
    }
}

} // verus!
