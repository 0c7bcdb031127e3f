//! Naming a release: which loader a modpack is for, and what the release is
//! called.
//!
//! The name comes from a template in the run configuration. Four
//! placeholders stand in it for the project's name, its version, the game
//! version and the loader; each is replaced wherever it occurs, in that
//! order, and the result of one replacement is the input of the next.

use vstd::prelude::*;
use crate::error::{fails_with, ErrorKind, PeonyError};
use crate::models::modrinth::Loader;
use crate::models::project_type::modpack::config::ModpackConfig;
use crate::models::project_type::modpack::{PackFile, PackFileVersions};
use crate::models::version::VersionInfo;
use crate::text::{
    contains, inert, lemma_absent_without_first, lemma_replaced_has_no_mark, marked, occurs_in,
    percent_free, replace, replaced,
};

verus! {

/// The loader that a pack manifest declares. Where it declares several, the
/// first of Quilt, Fabric, Forge and LiteLoader wins.
pub open spec fn declared_loader(versions: PackFileVersions) -> Option<Loader> {
    if versions.quilt is Some {
        Some(Loader::Quilt)
    } else if versions.fabric is Some {
        Some(Loader::Fabric)
    } else if versions.forge is Some {
        Some(Loader::Forge)
    } else if versions.liteloader is Some {
        Some(Loader::Liteloader)
    } else {
        None
    }
}

/// The loader that a pack manifest declares, if it declares one.
pub fn select_loader(versions: &PackFileVersions) -> (out: Option<Loader>)
    ensures
        out == declared_loader(*versions),
{
    if versions.quilt.is_some() {
        Some(Loader::Quilt)
    } else if versions.fabric.is_some() {
        Some(Loader::Fabric)
    } else if versions.forge.is_some() {
        Some(Loader::Forge)
    } else if versions.liteloader.is_some() {
        Some(Loader::Liteloader)
    } else {
        None
    }
}

/// The selection looks at nothing but which loaders are declared: the
/// highest in the order Quilt, Fabric, Forge, LiteLoader is selected, and
/// none only if none is declared.
pub proof fn lemma_loader_priority(versions: PackFileVersions)
    ensures
        versions.quilt is Some ==> declared_loader(versions) == Some(Loader::Quilt),
        versions.quilt is None && versions.fabric is Some ==> declared_loader(versions) == Some(
            Loader::Fabric,
        ),
        versions.quilt is None && versions.fabric is None && versions.forge is Some
            ==> declared_loader(versions) == Some(Loader::Forge),
        versions.quilt is None && versions.fabric is None && versions.forge is None
            && versions.liteloader is Some ==> declared_loader(versions) == Some(
            Loader::Liteloader,
        ),
        declared_loader(versions) is None <==> versions.quilt is None && versions.fabric is None
            && versions.forge is None && versions.liteloader is None,
{
}

/// Two manifests that declare the same loaders select the same one, whatever
/// versions of them they ask for.
pub proof fn lemma_loader_selection_is_deterministic(a: PackFileVersions, b: PackFileVersions)
    requires
        a.quilt is Some <==> b.quilt is Some,
        a.fabric is Some <==> b.fabric is Some,
        a.forge is Some <==> b.forge is Some,
        a.liteloader is Some <==> b.liteloader is Some,
    ensures
        declared_loader(a) == declared_loader(b),
{
}

/// The release name that `template` gives: the placeholder of the project's
/// name replaced first, then that of its version, of the game version, and
/// of the loader.
pub open spec fn version_name_text(
    template: Seq<char>,
    project_name: Seq<char>,
    project_version: Seq<char>,
    mc_version: Seq<char>,
    loader: Seq<char>,
) -> Seq<char> {
    replaced(
        replaced(
            replaced(
                replaced(template, "%project_name%"@, project_name),
                "%project_version%"@,
                project_version,
            ),
            "%mc_version%"@,
            mc_version,
        ),
        "%loader%"@,
        loader,
    )
}

/// Fills the template of a release name.
pub fn version_name(
    template: &str,
    project_name: &str,
    project_version: &str,
    mc_version: &str,
    loader: &str,
) -> (out: String)
    ensures
        out@ == version_name_text(template@, project_name@, project_version@, mc_version@, loader@),
{
    proof {
        reveal_strlit("%project_name%");
        reveal_strlit("%project_version%");
        reveal_strlit("%mc_version%");
        reveal_strlit("%loader%");
    }
    let named = replace(template, "%project_name%", project_name);
    let versioned = replace(named.as_str(), "%project_version%", project_version);
    let for_game = replace(versioned.as_str(), "%mc_version%", mc_version);
    replace(for_game.as_str(), "%loader%", loader)
}

/// The names of `loaders` as they are shown to people, with a slash between
/// one and the next.
pub open spec fn loaders_text(loaders: Seq<Loader>) -> Seq<char>
    decreases loaders.len(),
{
    if loaders.len() == 0 {
        Seq::empty()
    } else if loaders.len() == 1 {
        loaders[0].formatted_text()
    } else {
        loaders_text(loaders.drop_last()) + seq!['/'] + loaders.last().formatted_text()
    }
}

/// Writes the names of `loaders` with a slash between one and the next.
pub fn format_loaders(loaders: &Vec<Loader>) -> (out: String)
    ensures
        out@ == loaders_text(loaders@),
{
    let mut out = String::new();
    let mut i: usize = 0;
    while i < loaders.len()
        invariant
            i <= loaders.len(),
            out@ == loaders_text(loaders@.take(i as int)),
        decreases loaders.len() - i,
    {
        proof {
            reveal_strlit("/");
            let upto = loaders@.take(i + 1);
            assert(upto.drop_last() =~= loaders@.take(i as int));
            assert(upto.last() == loaders@[i as int]);
            assert("/"@ =~= seq!['/']);
        }
        if i > 0 {
            out.append("/");
        }
        let name = loaders[i].formatted();
        out.append(name.as_str());
        assert(out@ =~= loaders_text(loaders@.take(i + 1)));
        i = i + 1;
    }
    assert(loaders@.take(loaders.len() as int) =~= loaders@);
    out
}

/// The facts of a modpack release. `file_contents` is what reading the
/// archive gave: its bytes, or the words of the failure.
///
/// A manifest without a loader is refused, whatever the read gave; after
/// that, a failed read is reported.
pub fn get_modpack_version_info(
    config_file: &ModpackConfig,
    pack_file: &PackFile,
    file_contents: Result<Vec<u8>, String>,
) -> (out: Result<VersionInfo, PeonyError>)
    ensures
        declared_loader(pack_file.versions) is None ==> fails_with(
            out,
            ErrorKind::LoaderMissing,
            Seq::empty(),
        ),
        declared_loader(pack_file.versions) is Some ==> match file_contents {
            Err(words) => fails_with(out, ErrorKind::ModpackRead, words@),
            Ok(bytes) => {
                &&& out matches Ok(info)
                &&& Some(info.loader) == declared_loader(pack_file.versions)
                &&& info.version_name@ == version_name_text(
                    config_file.version_name_format@,
                    pack_file.name@,
                    pack_file.version@,
                    pack_file.versions.minecraft@,
                    info.loader.formatted_text(),
                )
                &&& info.file_contents@ == bytes@
            },
        },
{
    let loader = match select_loader(&pack_file.versions) {
        Some(loader) => loader,
        None => return Err(PeonyError::plain(ErrorKind::LoaderMissing)),
    };
    let file_contents = match file_contents {
        Ok(bytes) => bytes,
        Err(words) => return Err(PeonyError::new(ErrorKind::ModpackRead, words)),
    };
    let loader_name = loader.formatted();
    let version_name = version_name(
        config_file.version_name_format.as_str(),
        pack_file.name.as_str(),
        pack_file.version.as_str(),
        pack_file.versions.minecraft.as_str(),
        loader_name.as_str(),
    );
    Ok(VersionInfo { version_name, loader, file_contents })
}

/// One of the four placeholders stands in `text`.
pub open spec fn has_placeholder(text: Seq<char>) -> bool {
    ||| occurs_in(text, "%project_name%"@)
    ||| occurs_in(text, "%project_version%"@)
    ||| occurs_in(text, "%mc_version%"@)
    ||| occurs_in(text, "%loader%"@)
}

/// Tells whether one of the four placeholders stands in `text`: whether a
/// release name is one that substitution left unfinished.
pub fn holds_placeholder(text: &str) -> (out: bool)
    ensures
        out == has_placeholder(text@),
{
    contains(text, "%project_name%") || contains(text, "%project_version%") || contains(
        text,
        "%mc_version%",
    ) || contains(text, "%loader%")
}

/// A value that can stand for the project's name: it is inert for the
/// placeholder of the name.
///
/// A value has to be inert for its own placeholder and for those that are
/// replaced before it. What it makes of a placeholder that is replaced after
/// it does no harm, since that one is replaced wherever it then stands.
pub open spec fn safe_name(value: Seq<char>) -> bool {
    inert(value, "project_name"@)
}

/// A value that can stand for the project's version: it is inert for the
/// placeholders of the name and of the version.
pub open spec fn safe_version(value: Seq<char>) -> bool {
    safe_name(value) && inert(value, "project_version"@)
}

/// A value that can stand for the game version: it is inert for the
/// placeholders of the name, of the version and of the game version.
pub open spec fn safe_game_version(value: Seq<char>) -> bool {
    safe_version(value) && inert(value, "mc_version"@)
}

/// A value that can stand for the loader: it is inert for all four
/// placeholders.
pub open spec fn safe_loader(value: Seq<char>) -> bool {
    safe_game_version(value) && inert(value, "loader"@)
}

/// Each placeholder is its word between two percent signs.
proof fn lemma_placeholders_are_marked()
    ensures
        "%project_name%"@ == marked("project_name"@),
        "%project_version%"@ == marked("project_version"@),
        "%mc_version%"@ == marked("mc_version"@),
        "%loader%"@ == marked("loader"@),
{
    reveal_strlit("%project_name%");
    reveal_strlit("%project_version%");
    reveal_strlit("%mc_version%");
    reveal_strlit("%loader%");
    reveal_strlit("project_name");
    reveal_strlit("project_version");
    reveal_strlit("mc_version");
    reveal_strlit("loader");
    assert("%project_name%"@ =~= marked("project_name"@));
    assert("%project_version%"@ =~= marked("project_version"@));
    assert("%mc_version%"@ =~= marked("mc_version"@));
    assert("%loader%"@ =~= marked("loader"@));
}

/// No placeholder is left in a release name whose four values are safe,
/// each for its place, whatever the template.
///
/// Without the conditions the name may hold one: the template
/// `%project_name%` with the project name `%project_name%` gives
/// `%project_name%`, and the template `%project_%mc_version%%` with the game
/// version `name` gives it too.
pub proof fn lemma_version_name_has_no_placeholder(
    template: Seq<char>,
    project_name: Seq<char>,
    project_version: Seq<char>,
    mc_version: Seq<char>,
    loader: Seq<char>,
)
    requires
        safe_name(project_name),
        safe_version(project_version),
        safe_game_version(mc_version),
        safe_loader(loader),
    ensures
        !has_placeholder(
            version_name_text(template, project_name, project_version, mc_version, loader),
        ),
{
    lemma_placeholders_are_marked();
    let name_mark = "%project_name%"@;
    let version_mark = "%project_version%"@;
    let game_mark = "%mc_version%"@;
    let loader_mark = "%loader%"@;
    let named = replaced(template, name_mark, project_name);
    let versioned = replaced(named, version_mark, project_version);
    let for_game = replaced(versioned, game_mark, mc_version);
    lemma_replaced_has_no_mark(template, name_mark, project_name, "project_name"@);

    lemma_replaced_has_no_mark(named, version_mark, project_version, "project_name"@);
    lemma_replaced_has_no_mark(named, version_mark, project_version, "project_version"@);

    lemma_replaced_has_no_mark(versioned, game_mark, mc_version, "project_name"@);
    lemma_replaced_has_no_mark(versioned, game_mark, mc_version, "project_version"@);
    lemma_replaced_has_no_mark(versioned, game_mark, mc_version, "mc_version"@);

    lemma_replaced_has_no_mark(for_game, loader_mark, loader, "project_name"@);
    lemma_replaced_has_no_mark(for_game, loader_mark, loader, "project_version"@);
    lemma_replaced_has_no_mark(for_game, loader_mark, loader, "mc_version"@);
    lemma_replaced_has_no_mark(for_game, loader_mark, loader, "loader"@);
}

/// `value` begins with a capital letter and holds no percent sign.
spec fn capitalized(value: Seq<char>) -> bool {
    &&& value.len() > 0
    &&& (value[0] == 'Q' || value[0] == 'F' || value[0] == 'N' || value[0] == 'L')
    &&& percent_free(value)
}

/// A value that begins with a capital letter is safe in every place: the
/// placeholders' words are written in small letters.
proof fn lemma_capitalized_is_safe(value: Seq<char>)
    requires
        capitalized(value),
    ensures
        safe_loader(value),
{
    reveal_strlit("project_name");
    reveal_strlit("project_version");
    reveal_strlit("mc_version");
    reveal_strlit("loader");
    lemma_absent_without_first("project_name"@, value);
    lemma_absent_without_first("project_version"@, value);
    lemma_absent_without_first("mc_version"@, value);
    lemma_absent_without_first("loader"@, value);
}

/// The name of a loader begins with a capital letter and holds no percent
/// sign.
proof fn lemma_loader_name_is_capitalized(loader: Loader)
    ensures
        capitalized(loader.formatted_text()),
{
    reveal_strlit("Quilt");
    reveal_strlit("Fabric");
    reveal_strlit("NeoForge");
    reveal_strlit("Forge");
    reveal_strlit("LiteLoader");
}

/// The names of one or more loaders, joined, begin with a capital letter and
/// hold no percent sign.
proof fn lemma_loaders_text_is_capitalized(loaders: Seq<Loader>)
    requires
        loaders.len() > 0,
    ensures
        capitalized(loaders_text(loaders)),
    decreases loaders.len(),
{
    lemma_loader_name_is_capitalized(loaders.last());
    if loaders.len() > 1 {
        lemma_loaders_text_is_capitalized(loaders.drop_last());
    }
}

/// The name of a modpack release holds no placeholder, if the pack's name,
/// its version and the game version are safe values. The loader's name
/// always is.
pub proof fn lemma_modpack_version_name_has_no_placeholder(
    template: Seq<char>,
    pack_name: Seq<char>,
    pack_version: Seq<char>,
    mc_version: Seq<char>,
    loader: Loader,
)
    requires
        safe_name(pack_name),
        safe_version(pack_version),
        safe_game_version(mc_version),
    ensures
        !has_placeholder(
            version_name_text(
                template,
                pack_name,
                pack_version,
                mc_version,
                loader.formatted_text(),
            ),
        ),
{
    lemma_loader_name_is_capitalized(loader);
    lemma_capitalized_is_safe(loader.formatted_text());
    lemma_version_name_has_no_placeholder(
        template,
        pack_name,
        pack_version,
        mc_version,
        loader.formatted_text(),
    );
}

/// The name of a mod release holds no placeholder, if the mod's name, what
/// stands for its version and what stands for the game version are safe
/// values, and the configuration names a loader.
///
/// With no loader the placeholder of the loader is replaced by nothing, and
/// what stood around it can join: `%pro%loader%ject_name%` with the project
/// name `x` gives `%project_name%`.
pub proof fn lemma_mod_version_name_has_no_placeholder(
    template: Seq<char>,
    mod_name: Seq<char>,
    project_version: Seq<char>,
    mc_version: Seq<char>,
    loaders: Seq<Loader>,
)
    requires
        safe_name(mod_name),
        safe_version(project_version),
        safe_game_version(mc_version),
        loaders.len() > 0,
    ensures
        !has_placeholder(
            version_name_text(
                template,
                mod_name,
                project_version,
                mc_version,
                loaders_text(loaders),
            ),
        ),
{
    lemma_loaders_text_is_capitalized(loaders);
    lemma_capitalized_is_safe(loaders_text(loaders));
    lemma_version_name_has_no_placeholder(
        template,
        mod_name,
        project_version,
        mc_version,
        loaders_text(loaders),
    );
}

} // verus!
