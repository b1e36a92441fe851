//! The extension matcher: a file type matcher of the `ignore` crate that
//! selects one file type per source extension, defined by the glob `*.<ext>`.

use crate::text::texts;
use ignore::types::{Types, TypesBuilder};
use vstd::prelude::*;

verus! {

#[verifier::external_type_specification]
#[verifier::external_body]
pub struct ExTypesBuilder(TypesBuilder);

#[verifier::external_type_specification]
#[verifier::external_body]
pub struct ExTypes(Types);

#[verifier::external_type_specification]
#[verifier::external_body]
pub struct ExIgnoreError(ignore::Error);

/// The file type definitions that a builder holds: for each defined name its
/// globs, in the order in which they were added.
pub uninterp spec fn builder_definitions(builder: TypesBuilder) -> Map<Seq<char>, Seq<Seq<char>>>;

/// The selections that a builder holds, in order: whether the selection
/// negates, and the name of the file type.
pub uninterp spec fn builder_selections(builder: TypesBuilder) -> Seq<(bool, Seq<char>)>;

/// The selections that a matcher holds, in order: whether the selection
/// negates, the name of the file type, and the globs of its definition.
pub uninterp spec fn matcher_selections(types: Types) -> Seq<(bool, Seq<char>, Seq<Seq<char>>)>;

/// What `char::is_alphanumeric` returns.
pub uninterp spec fn alphanumeric(c: char) -> bool;

/// Whether a matcher with these selections whitelists the path of a file:
/// what `Types::matched` finds for it.
pub uninterp spec fn whitelists(
    selections: Seq<(bool, Seq<char>, Seq<Seq<char>>)>,
    path: Seq<char>,
) -> bool;

/// Whether `TypesBuilder::build` builds a matcher from a builder that holds
/// these selections and these definitions.
pub uninterp spec fn builds(
    selections: Seq<(bool, Seq<char>)>,
    definitions: Map<Seq<char>, Seq<Seq<char>>>,
) -> bool;

/// A name that a file type can be defined under: not `all`, and made of
/// letters and digits only.
pub open spec fn definable(name: Seq<char>) -> bool {
    name != "all"@ && forall|i: int| 0 <= i < name.len() ==> alphanumeric(#[trigger] name[i])
}

/// The definitions after `glob` was added under `name`.
pub open spec fn with_glob(
    definitions: Map<Seq<char>, Seq<Seq<char>>>,
    name: Seq<char>,
    glob: Seq<char>,
) -> Map<Seq<char>, Seq<Seq<char>>> {
    let globs = if definitions.dom().contains(name) {
        definitions[name]
    } else {
        Seq::empty()
    };
    definitions.insert(name, globs.push(glob))
}

/// `added` selects every defined file type once, in some order, and negates
/// none.
pub open spec fn selects_each(
    added: Seq<(bool, Seq<char>)>,
    definitions: Map<Seq<char>, Seq<Seq<char>>>,
) -> bool {
    &&& added.no_duplicates()
    &&& forall|k: int|
        0 <= k < added.len() ==> !(#[trigger] added[k]).0 && definitions.dom().contains(added[k].1)
    &&& forall|name: Seq<char>| #[trigger]
        definitions.dom().contains(name) ==> added.contains((false, name))
}

/// `after` is `before` followed by a selection of every defined file type.
pub open spec fn extended_by_all(
    before: Seq<(bool, Seq<char>)>,
    after: Seq<(bool, Seq<char>)>,
    definitions: Map<Seq<char>, Seq<Seq<char>>>,
) -> bool {
    &&& before.len() <= after.len()
    &&& after.subrange(0, before.len() as int) == before
    &&& selects_each(after.subrange(before.len() as int, after.len() as int), definitions)
}

/// Each selection of the matcher is the selection of the builder at the same
/// place, together with the globs defined under its name.
pub open spec fn resolves(
    resolved: Seq<(bool, Seq<char>, Seq<Seq<char>>)>,
    selections: Seq<(bool, Seq<char>)>,
    definitions: Map<Seq<char>, Seq<Seq<char>>>,
) -> bool {
    &&& resolved.len() == selections.len()
    &&& forall|k: int|
        0 <= k < selections.len() ==> {
            &&& definitions.dom().contains((#[trigger] selections[k]).1)
            &&& resolved[k] == (selections[k].0, selections[k].1, definitions[selections[k].1])
        }
}

/// Calls `TypesBuilder::new`. Trusted: the new builder holds no definition
/// and no selection.
#[verifier::external_body]
fn new_builder() -> (builder: TypesBuilder)
    ensures
        builder_definitions(builder) =~= Map::empty(),
        builder_selections(builder) =~= Seq::empty(),
{
    TypesBuilder::new()
}

/// Calls `TypesBuilder::add`. Trusted: the call fails exactly where the name
/// is `all` or holds a character that is not a letter or a digit, and then
/// changes nothing; otherwise the glob is put last among those defined under
/// the name. The glob itself is not examined. Selections stay as they are.
#[verifier::external_body]
fn add_definition(builder: &mut TypesBuilder, name: &str, glob: &str) -> (added: Result<
    (),
    ignore::Error,
>)
    ensures
        added is Ok <==> (name@ != "all"@ && forall|i: int|
            0 <= i < name@.len() ==> alphanumeric(#[trigger] name@[i])),
        builder_definitions(*final(builder)) == if added is Ok {
            with_glob(builder_definitions(*old(builder)), name@, glob@)
        } else {
            builder_definitions(*old(builder))
        },
        builder_selections(*final(builder)) == builder_selections(*old(builder)),
{
    builder.add(name, glob)
}

/// Calls `TypesBuilder::select` with the name `all`. Trusted: one selection
/// is appended for each defined file type, in an order that is not fixed,
/// none of them negating. Definitions stay as they are.
#[verifier::external_body]
fn select(builder: &mut TypesBuilder, name: &str)
    requires
        name@ == "all"@,
    ensures
        builder_definitions(*final(builder)) == builder_definitions(*old(builder)),
        extended_by_all(
            builder_selections(*old(builder)),
            builder_selections(*final(builder)),
            builder_definitions(*old(builder)),
        ),
{
    builder.select(name);
}

/// Calls `TypesBuilder::build`. Trusted: whether a matcher is built is a
/// function of the builder's selections and definitions alone, named
/// `builds`: the call looks each selection up and compiles its globs. Where
/// a matcher is built, its selections are those of the builder, in order,
/// each with the globs defined under its name.
#[verifier::external_body]
fn build_types(builder: &TypesBuilder) -> (built: Result<Types, ignore::Error>)
    ensures
        built is Ok <==> builds(builder_selections(*builder), builder_definitions(*builder)),
        built matches Ok(types) ==> resolves(
            matcher_selections(types),
            builder_selections(*builder),
            builder_definitions(*builder),
        ),
{
    builder.build()
}

/// Calls `Types::matched` for the path of a file (not a directory) and
/// `Match::is_whitelist` on what it finds. Trusted: the answer is a function
/// of the matcher's selections and the path alone, named `whitelists`.
#[verifier::external_body]
pub(crate) fn whitelisted(types: &Types, path: &str) -> (found: bool)
    ensures
        found == whitelists(matcher_selections(*types), path@),
{
    types.matched(path, false).is_whitelist()
}

/// Calls `to_string` on an `ignore::Error`, which renders it through its
/// `Display` implementation. Trusted: nothing is claimed of the text.
#[verifier::external_body]
fn error_text(error: &ignore::Error) -> String {
    error.to_string()
}

/// The glob that recognises files with the extension: `*.<ext>`.
pub open spec fn glob_of(extension: Seq<char>) -> Seq<char> {
    "*."@ + extension
}

/// How often `item` occurs in `items`.
pub open spec fn occurrences(items: Seq<Seq<char>>, item: Seq<char>) -> nat
    decreases items.len(),
{
    if items.len() == 0 {
        0
    } else {
        occurrences(items.drop_last(), item) + if items.last() == item {
            1nat
        } else {
            0nat
        }
    }
}

/// The globs defined under the extension `name`: its glob, once for each
/// time that the extension is listed.
pub open spec fn globs_of(sources: Seq<Seq<char>>, name: Seq<char>) -> Seq<Seq<char>> {
    Seq::new(occurrences(sources, name), |i: int| glob_of(name))
}

/// An extension that a file type can be made of: not empty, and a definable
/// name.
pub open spec fn usable_extension(extension: Seq<char>) -> bool {
    extension.len() > 0 && definable(extension)
}

/// The selections are exactly one per distinct source extension, in some
/// order: none negates, each is named by its extension and holds the globs
/// of that extension.
pub open spec fn selects_sources(
    selections: Seq<(bool, Seq<char>, Seq<Seq<char>>)>,
    sources: Seq<Seq<char>>,
) -> bool {
    &&& forall|k: int|
        0 <= k < selections.len() ==> {
            &&& !(#[trigger] selections[k]).0
            &&& sources.contains(selections[k].1)
            &&& selections[k].2 == globs_of(sources, selections[k].1)
        }
    &&& forall|j: int|
        0 <= j < sources.len() ==> exists|k: int|
            0 <= k < selections.len() && (#[trigger] selections[k]).1 == #[trigger] sources[j]
    &&& forall|k1: int, k2: int|
        0 <= k1 < k2 < selections.len() ==> (#[trigger] selections[k1]).1 != (
        #[trigger] selections[k2]).1
}

/// Why no matcher could be built.
#[derive(Debug)]
pub enum MatcherBuildError {
    /// The source extension at `index` is empty.
    EmptyExtension { index: usize },
    /// The source extension at `index` cannot name a file type; the reason as
    /// the `ignore` crate gives it.
    InvalidExtension { index: usize, reason: String },
    /// Every source extension is usable, but the globs were refused; the
    /// reason as the `ignore` crate gives it.
    Rejected { reason: String },
}

impl MatcherBuildError {
    /// The message that describes the error.
    pub fn message(&self) -> (text: String)
        ensures
            text@ == match *self {
                MatcherBuildError::EmptyExtension { .. } => "a source extension is empty"@,
                MatcherBuildError::InvalidExtension { reason, .. } => reason@,
                MatcherBuildError::Rejected { reason } => reason@,
            },
    {
        match self {
            MatcherBuildError::EmptyExtension { .. } => String::from_str(
                "a source extension is empty",
            ),
            MatcherBuildError::InvalidExtension { reason, .. } => reason.clone(),
            MatcherBuildError::Rejected { reason } => reason.clone(),
        }
    }
}

/// A filter that accepts the files with one of the source extensions.
#[derive(Debug)]
pub struct ExtensionMatcher {
    /// The matcher of the `ignore` crate, as a directory walk takes it.
    pub types: Types,
}

/// When a matcher is owed. Where every extension is usable, the builder
/// holds the definitions made of the sources and selects each of them once,
/// in an order that is not fixed; a matcher is built exactly where the
/// `ignore` crate builds one from that.
pub open spec fn build_owed(sources: Seq<Seq<char>>, succeeded: bool) -> bool {
    (forall|j: int| 0 <= j < sources.len() ==> usable_extension(#[trigger] sources[j]))
        ==> exists|chosen: Seq<(bool, Seq<char>)>| #[trigger]
        selects_each(chosen, definitions_of(sources)) && (succeeded <==> builds(
            chosen,
            definitions_of(sources),
        ))
}

/// What building a matcher for `sources` returns. The first extension that
/// is not usable is reported with its place: as empty, or else as invalid.
/// Where every extension is usable, a matcher is built exactly where the
/// `ignore` crate builds one, and the only error is its refusal. A matcher
/// that is built selects exactly the sources.
pub open spec fn built_for(
    sources: Seq<Seq<char>>,
    built: Result<ExtensionMatcher, MatcherBuildError>,
) -> bool {
    &&& build_owed(sources, built is Ok)
    &&& match built {
        Ok(matcher) => {
            &&& forall|j: int| 0 <= j < sources.len() ==> usable_extension(#[trigger] sources[j])
            &&& selects_sources(matcher.selections(), sources)
        },
        Err(MatcherBuildError::EmptyExtension { index }) => {
            &&& index < sources.len()
            &&& forall|j: int| 0 <= j < index ==> usable_extension(#[trigger] sources[j])
            &&& sources[index as int].len() == 0
        },
        Err(MatcherBuildError::InvalidExtension { index, .. }) => {
            &&& index < sources.len()
            &&& forall|j: int| 0 <= j < index ==> usable_extension(#[trigger] sources[j])
            &&& sources[index as int].len() > 0
            &&& !definable(sources[index as int])
        },
        Err(MatcherBuildError::Rejected { .. }) => forall|j: int|
            0 <= j < sources.len() ==> usable_extension(#[trigger] sources[j]),
    }
}

/// The definitions that a builder holds once a glob was added for each of
/// `sources`, in order.
pub open spec fn definitions_of(sources: Seq<Seq<char>>) -> Map<Seq<char>, Seq<Seq<char>>>
    decreases sources.len(),
{
    if sources.len() == 0 {
        Map::empty()
    } else {
        with_glob(definitions_of(sources.drop_last()), sources.last(), glob_of(sources.last()))
    }
}

/// Under `name` the definitions made of `sources` hold the globs of that
/// extension, where it is listed, and nothing where it is not.
pub proof fn lemma_definition_of(sources: Seq<Seq<char>>, name: Seq<char>)
    ensures
        definitions_of(sources).dom().contains(name) <==> sources.contains(name),
        sources.contains(name) ==> definitions_of(sources)[name] == globs_of(sources, name),
        !sources.contains(name) ==> occurrences(sources, name) == 0,
    decreases sources.len(),
{
    if sources.len() > 0 {
        let front = sources.drop_last();
        let last = sources.last();
        lemma_definition_of(front, name);
        if front.contains(name) {
            let j = choose|j: int| 0 <= j < front.len() && front[j] == name;
            assert(sources[j] == name);
        }
        if sources.contains(name) && name != last {
            let j = choose|j: int| 0 <= j < sources.len() && sources[j] == name;
            assert(front[j] == name);
        }
        if name == last {
            assert(sources[sources.len() - 1] == name);
            if front.contains(name) {
                assert(globs_of(front, name).push(glob_of(name)) =~= globs_of(sources, name));
            } else {
                assert(Seq::<Seq<char>>::empty().push(glob_of(name)) =~= globs_of(sources, name));
            }
        } else if sources.contains(name) {
            assert(globs_of(front, name) =~= globs_of(sources, name));
        }
    } else {
        assert(definitions_of(sources).dom() =~= Set::empty());
    }
}

/// Builds the glob of an extension.
pub fn extension_glob(extension: &str) -> (glob: String)
    ensures
        glob@ == glob_of(extension@),
{
    let mut glob = String::from_str("*.");
    glob.append(extension);
    glob
}

impl ExtensionMatcher {
    /// The selections of the matcher, in order: whether the selection negates,
    /// the name of the file type, and its globs.
    pub open spec fn selections(&self) -> Seq<(bool, Seq<char>, Seq<Seq<char>>)> {
        matcher_selections(self.types)
    }

    /// Whether the matcher accepts the path of a file.
    pub open spec fn accepts(&self, path: Seq<char>) -> bool {
        whitelists(self.selections(), path)
    }

    /// Builds the matcher for the source extensions: each becomes a file type
    /// of its own name with the glob `*.<ext>`, and all of them are selected.
    ///
    /// The first extension that is empty or cannot name a file type is
    /// reported. Where all are usable, the matcher is built exactly where the
    /// `ignore` crate builds one from the definitions and their selection.
    pub fn build(sources: &Vec<String>) -> (built: Result<ExtensionMatcher, MatcherBuildError>)
        ensures
            built_for(texts(sources@), built),
    {
        let mut builder = new_builder();
        let mut i: usize = 0;
        assert(texts(sources@).take(0) =~= Seq::empty());
        while i < sources.len()
            invariant
                i <= sources.len(),
                forall|j: int| 0 <= j < i ==> usable_extension(#[trigger] texts(sources@)[j]),
                builder_definitions(builder) == definitions_of(texts(sources@).take(i as int)),
                builder_selections(builder) == Seq::<(bool, Seq<char>)>::empty(),
            decreases sources.len() - i,
        {
            let extension = sources[i].as_str();
            if extension.unicode_len() == 0 {
                assert(!usable_extension(texts(sources@)[i as int]));
                return Err(MatcherBuildError::EmptyExtension { index: i });
            }
            let glob = extension_glob(extension);
            match add_definition(&mut builder, extension, glob.as_str()) {
                Ok(()) => {},
                Err(error) => {
                    assert(!usable_extension(texts(sources@)[i as int]));
                    return Err(
                        MatcherBuildError::InvalidExtension {
                            index: i,
                            reason: error_text(&error),
                        },
                    );
                },
            }
            proof {
                let next = texts(sources@).take(i + 1);
                assert(next.drop_last() =~= texts(sources@).take(i as int));
                assert(next.last() == extension@);
            }
            i += 1;
        }
        assert(texts(sources@).take(i as int) =~= texts(sources@));
        select(&mut builder, "all");
        proof {
            let chosen = builder_selections(builder);
            assert(chosen.subrange(0, chosen.len() as int) =~= chosen);
            assert(selects_each(chosen, definitions_of(texts(sources@))));
        }
        match build_types(&builder) {
            Ok(types) => {
                let matcher = ExtensionMatcher { types };
                proof {
                    let names = texts(sources@);
                    let chosen = builder_selections(builder);
                    let resolved = matcher.selections();
                    assert forall|name: Seq<char>|
                        definitions_of(names).dom().contains(name) <==> names.contains(name) by {
                        lemma_definition_of(names, name);
                    }
                    assert(chosen.subrange(0, chosen.len() as int) =~= chosen);
                    assert forall|j: int| 0 <= j < names.len() implies exists|k: int|
                        0 <= k < resolved.len() && (#[trigger] resolved[k]).1
                            == #[trigger] names[j] by {
                        assert(names.contains(names[j]));
                        assert(definitions_of(names).dom().contains(names[j]));
                        assert(chosen.contains((false, names[j])));
                        let k = choose|k: int|
                            0 <= k < chosen.len() && chosen[k] == (false, names[j]);
                        assert(resolved[k].1 == names[j]);
                    }
                    assert forall|k1: int, k2: int|
                        0 <= k1 < k2 < resolved.len() implies (#[trigger] resolved[k1]).1 != (
                    #[trigger] resolved[k2]).1 by {
                        assert(!chosen[k1].0 && !chosen[k2].0);
                        assert(chosen[k1] != chosen[k2]);
                    }
                    assert forall|k: int| 0 <= k < resolved.len() implies {
                        &&& !(#[trigger] resolved[k]).0
                        &&& names.contains(resolved[k].1)
                        &&& resolved[k].2 == globs_of(names, resolved[k].1)
                    } by {
                        assert(!chosen[k].0);
                        assert(definitions_of(names).dom().contains(chosen[k].1));
                        lemma_definition_of(names, chosen[k].1);
                    }
                }
                Ok(matcher)
            },
            Err(error) => Err(MatcherBuildError::Rejected { reason: error_text(&error) }),
        }
    }
}

/// An item that is listed occurs at least once.
proof fn lemma_occurs(items: Seq<Seq<char>>, j: int)
    requires
        0 <= j < items.len(),
    ensures
        occurrences(items, items[j]) >= 1,
    decreases items.len(),
{
    if j < items.len() - 1 {
        lemma_occurs(items.drop_last(), j);
    }
}

/// A matcher that selects exactly the sources holds, for each source
/// extension, a selection named by it that does not negate and whose globs
/// are all `*.<ext>`, at least one of them.
pub proof fn law_each_source_is_selected(
    selections: Seq<(bool, Seq<char>, Seq<Seq<char>>)>,
    sources: Seq<Seq<char>>,
    j: int,
)
    requires
        selects_sources(selections, sources),
        0 <= j < sources.len(),
    ensures
        exists|k: int|
            0 <= k < selections.len() && !(#[trigger] selections[k]).0 && selections[k].1
                == sources[j] && selections[k].2.len() >= 1 && (forall|i: int|
                0 <= i < selections[k].2.len() ==> #[trigger] selections[k].2[i] == glob_of(
                    sources[j],
                )),
{
    let k = choose|k: int|
        0 <= k < selections.len() && (#[trigger] selections[k]).1 == #[trigger] sources[j];
    assert(selections[k].2 == globs_of(sources, sources[j]));
    lemma_occurs(sources, j);
}

} // verus!
