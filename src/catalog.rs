//! The nine traits that can be requested, how each is named in a bound, and
//! the parsing of a request list.
use vstd::prelude::*;

verus! {

/// Relies on proc_macro2::Span, held opaque: the source location of a
/// requested trait name, carried unchanged into the error that names it.
#[verifier::external_type_specification]
#[verifier::external_body]
pub struct ExSpan(proc_macro2::Span);

/// A trait that can be requested.
#[derive(PartialEq, Eq, Structural, Hash, Debug, Copy, Clone)]
pub enum DerivedTypeEnum {
    Copy,
    Clone,
    PartialEq,
    Eq,
    Ord,
    PartialOrd,
    Hash,
    Default,
    Debug,
}

/// The name under which a trait is requested.
pub open spec fn kind_name(k: DerivedTypeEnum) -> Seq<char> {
    match k {
        DerivedTypeEnum::Copy => "Copy"@,
        DerivedTypeEnum::Clone => "Clone"@,
        DerivedTypeEnum::PartialEq => "PartialEq"@,
        DerivedTypeEnum::Eq => "Eq"@,
        DerivedTypeEnum::Ord => "Ord"@,
        DerivedTypeEnum::PartialOrd => "PartialOrd"@,
        DerivedTypeEnum::Hash => "Hash"@,
        DerivedTypeEnum::Default => "Default"@,
        DerivedTypeEnum::Debug => "Debug"@,
    }
}

/// Whether `name` is the name of one of the nine traits.
pub open spec fn is_known(name: Seq<char>) -> bool {
    exists|k: DerivedTypeEnum| kind_name(k) == name
}

/// The path that names a trait in an impl header and in a bound: `Hash` and
/// `Debug` are scoped, the other seven stand unscoped under their own name.
pub open spec fn trait_path(k: DerivedTypeEnum) -> Seq<char> {
    match k {
        DerivedTypeEnum::Hash => "std::hash::Hash"@,
        DerivedTypeEnum::Debug => "std::fmt::Debug"@,
        _ => kind_name(k),
    }
}

/// A requested trait and where it was requested.
pub struct DerivedType {
    pub name: DerivedTypeEnum,
    pub span: proc_macro2::Span,
}

/// The path that names a trait, located at the request that named it.
pub struct TraitPath {
    pub text: String,
    pub span: proc_macro2::Span,
}

/// A bound that a type must meet: the trait's path, with no modifier.
pub struct TraitBound {
    pub path: TraitPath,
}

/// Why an expansion is refused.
pub enum DeriveError {
    /// A requested name is none of the nine traits.
    UnrecognizedTrait { name: String, span: proc_macro2::Span },
    /// A trait is requested a second time, at `span`.
    DuplicateTrait { kind: DerivedTypeEnum, span: proc_macro2::Span },
    /// `Default` is requested on an enum with no variant marked default.
    MissingDefaultVariant,
    /// `Default` is requested on an enum with more than one variant marked default.
    MultipleDefaultVariants,
}

fn kind_text(k: DerivedTypeEnum) -> (r: &'static str)
    ensures
        r@ == kind_name(k),
{
    match k {
        DerivedTypeEnum::Copy => "Copy",
        DerivedTypeEnum::Clone => "Clone",
        DerivedTypeEnum::PartialEq => "PartialEq",
        DerivedTypeEnum::Eq => "Eq",
        DerivedTypeEnum::Ord => "Ord",
        DerivedTypeEnum::PartialOrd => "PartialOrd",
        DerivedTypeEnum::Hash => "Hash",
        DerivedTypeEnum::Default => "Default",
        DerivedTypeEnum::Debug => "Debug",
    }
}

/// Whether two texts are the same.
pub fn same_text(a: &str, b: &str) -> (r: bool)
    ensures
        r == (a@ == b@),
{
    let n = a.unicode_len();
    if n != b.unicode_len() {
        return false;
    }
    let mut i: usize = 0;
    while i < n
        invariant
            n == a@.len(),
            n == b@.len(),
            i <= n,
            forall|j: int| 0 <= j < i ==> a@[j] == b@[j],
        decreases n - i,
    {
        if a.get_char(i) != b.get_char(i) {
            return false;
        }
        i = i + 1;
    }
    assert(a@ =~= b@);
    true
}

impl DerivedType {
    /// Looks `name` up in the catalog.
    pub fn parse(name: &str, span: proc_macro2::Span) -> (r: Result<DerivedType, DeriveError>)
        ensures
            r matches Ok(d) ==> kind_name(d.name) == name@ && d.span == span,
            r matches Err(e) ==> e is UnrecognizedTrait && e->UnrecognizedTrait_name@ == name@
                && e->UnrecognizedTrait_span == span,
            r is Err <==> !is_known(name@),
    {
        let kinds = [
            DerivedTypeEnum::Copy,
            DerivedTypeEnum::Clone,
            DerivedTypeEnum::PartialEq,
            DerivedTypeEnum::Eq,
            DerivedTypeEnum::Ord,
            DerivedTypeEnum::PartialOrd,
            DerivedTypeEnum::Hash,
            DerivedTypeEnum::Default,
            DerivedTypeEnum::Debug,
        ];
        let mut i: usize = 0;
        while i < 9
            invariant
                i <= 9,
                kinds@ == seq![
                    DerivedTypeEnum::Copy,
                    DerivedTypeEnum::Clone,
                    DerivedTypeEnum::PartialEq,
                    DerivedTypeEnum::Eq,
                    DerivedTypeEnum::Ord,
                    DerivedTypeEnum::PartialOrd,
                    DerivedTypeEnum::Hash,
                    DerivedTypeEnum::Default,
                    DerivedTypeEnum::Debug,
                ],
                forall|j: int| 0 <= j < i ==> kind_name(#[trigger] kinds@[j]) != name@,
            decreases 9 - i,
        {
            if same_text(kind_text(kinds[i]), name) {
                assert(kind_name(kinds@[i as int]) == name@);
                return Ok(DerivedType { name: kinds[i], span });
            }
            i = i + 1;
        }
        assert forall|k: DerivedTypeEnum| kind_name(k) != name@ by {
            let j: int = match k {
                DerivedTypeEnum::Copy => 0,
                DerivedTypeEnum::Clone => 1,
                DerivedTypeEnum::PartialEq => 2,
                DerivedTypeEnum::Eq => 3,
                DerivedTypeEnum::Ord => 4,
                DerivedTypeEnum::PartialOrd => 5,
                DerivedTypeEnum::Hash => 6,
                DerivedTypeEnum::Default => 7,
                DerivedTypeEnum::Debug => 8,
            };
            assert(kinds@[j] == k);
        }
        Err(DeriveError::UnrecognizedTrait { name: String::from_str(name), span })
    }

    /// The path that names the trait, at the location of the request.
    pub fn path(&self) -> (r: TraitPath)
        ensures
            r.text@ == trait_path(self.name),
            r.span == self.span,
    {
        let text = match self.name {
            DerivedTypeEnum::Hash => String::from_str("std::hash::Hash"),
            DerivedTypeEnum::Debug => String::from_str("std::fmt::Debug"),
            _ => String::from_str(kind_text(self.name)),
        };
        TraitPath { text, span: self.span }
    }

    /// The bound that a field type must meet for the trait's impl.
    pub fn get_trait(&self) -> (r: TraitBound)
        ensures
            r.path.text@ == trait_path(self.name),
            r.path.span == self.span,
    {
        TraitBound { path: self.path() }
    }
}

/// The requested traits, in the order in which their impls are written.
pub struct DerivedList(pub Vec<DerivedType>);

impl DerivedList {
    /// Looks every name up in the catalog, keeping their order; fails on the
    /// first name that is not there. Repeats are kept.
    pub fn parse(items: &Vec<(String, proc_macro2::Span)>) -> (r: Result<DerivedList, DeriveError>)
        ensures
            r matches Ok(l) ==> l.0@.len() == items@.len() && forall|i: int|
                0 <= i < items@.len() ==> kind_name(#[trigger] l.0@[i].name) == items@[i].0@
                    && l.0@[i].span == items@[i].1,
            r is Err <==> exists|i: int| 0 <= i < items@.len() && !is_known(#[trigger] items@[i].0@),
            r matches Err(e) ==> e is UnrecognizedTrait && exists|i: int|
                0 <= i < items@.len() && e->UnrecognizedTrait_name@ == #[trigger] items@[i].0@
                    && !is_known(items@[i].0@),
    {
        let mut out: Vec<DerivedType> = Vec::new();
        let mut i: usize = 0;
        while i < items.len()
            invariant
                i <= items@.len(),
                out@.len() == i,
                forall|j: int|
                    0 <= j < i ==> kind_name(#[trigger] out@[j].name) == items@[j].0@
                        && out@[j].span == items@[j].1,
            decreases items@.len() - i,
        {
            let d = DerivedType::parse(items[i].0.as_str(), items[i].1);
            match d {
                Ok(d) => out.push(d),
                Err(e) => {
                    return Err(e);
                },
            }
            i = i + 1;
        }
        assert forall|j: int| 0 <= j < items@.len() implies is_known(#[trigger] items@[j].0@) by {
            assert(kind_name(out@[j].name) == items@[j].0@);
        }
        Ok(DerivedList(out))
    }
}

} // verus!
