//! The template plugin: renders template files with the details of the
//! containers that ask for it through their labels.

use vstd::prelude::*;
use crate::labels::ContainerLabels;
use crate::text::{is_white_space, join_path, law_words_of_joined, path_join, split_whitespace, string_views, words};
use super::OwlPlugin;

verus! {

/// The template plugin.
pub struct Template {}

/// A template to load: the file it is read from and the name it is known by.
pub struct TemplateFile {
    pub path: String,
    pub name: String,
}

/// The views of a list of template files: (path, name) pairs.
pub open spec fn template_file_views(v: Seq<TemplateFile>) -> Seq<(Seq<char>, Seq<char>)> {
    v.map_values(|f: TemplateFile| (f.path@, f.name@))
}

/// The templates named in the whitespace separated list `files`, each read
/// from the directory `src`.
pub open spec fn spec_template_files(src: Seq<char>, files: Seq<char>) -> Seq<(Seq<char>, Seq<char>)> {
    words(files).map_values(|n: Seq<char>| (join_path(src, n), n))
}

/// What the template plugin does for one container: the templates to load,
/// and the directory their renderings go to, or none for standard output.
pub struct TemplateJob {
    pub files: Vec<TemplateFile>,
    pub dest: Option<String>,
}

impl Template {
    /// The template plugin.
    pub fn new() -> (res: Box<Template>)
        ensures
            *res == (Template {}),
    {
        Box::new(Template {})
    }

    /// The templates named in `files_name`, read from the directory `src`.
    pub fn template_files(src: &str, files_name: &str) -> (res: Vec<TemplateFile>)
        ensures
            template_file_views(res@) == spec_template_files(src@, files_name@),
    {
        let names = split_whitespace(files_name);
        let ghost ws = words(files_name@);
        let mut res: Vec<TemplateFile> = Vec::new();
        for i in 0..names.len()
            invariant
                string_views(names@) == ws,
                template_file_views(res@) == ws.take(i as int).map_values(
                    |n: Seq<char>| (join_path(src@, n), n),
                ),
        {
            let ghost before = res@;
            let name = names[i].clone();
            assert(name@ == ws[i as int]);
            let path = path_join(src, name.as_str());
            res.push(TemplateFile { path, name });
            assert(template_file_views(res@) == template_file_views(before).push(
                (join_path(src@, ws[i as int]), ws[i as int]),
            ));
            assert(ws.take(i + 1).map_values(|n: Seq<char>| (join_path(src@, n), n)) == ws.take(
                i as int,
            ).map_values(|n: Seq<char>| (join_path(src@, n), n)).push(
                (join_path(src@, ws[i as int]), ws[i as int]),
            ));
        }
        assert(ws.take(names@.len() as int) == ws);
        res
    }

    /// Where the rendering of the template `template_name` goes.
    pub fn output_path(dest: &str, template_name: &str) -> (res: String)
        ensures
            res@ == join_path(dest@, template_name@),
    {
        path_join(dest, template_name)
    }

    /// What the plugin does for a container: the templates named by the
    /// label `owl-template-files`, read from the directory in
    /// `owl-template-src`, rendered into the directory in `owl-template-dest`,
    /// or to standard output when that label is absent.
    pub fn job(&self, labels: &ContainerLabels) -> (res: TemplateJob)
        requires
            labels@.contains_key("owl-template-files"@),
            labels@.contains_key("owl-template-src"@),
        ensures
            template_file_views(res.files@) == spec_template_files(
                labels@["owl-template-src"@],
                labels@["owl-template-files"@],
            ),
            match res.dest {
                Some(d) => labels@.contains_key("owl-template-dest"@) && d@
                    == labels@["owl-template-dest"@],
                None => !labels@.contains_key("owl-template-dest"@),
            },
    {
        let files = labels.get("owl-template-files").unwrap();
        let src = labels.get("owl-template-src").unwrap();
        let dest = match labels.get("owl-template-dest") {
            Some(d) => Some(d.clone()),
            None => None,
        };
        TemplateJob { files: Template::template_files(src.as_str(), files.as_str()), dest }
    }
}

/// The template plugin runs on containers that carry the labels
/// `owl-template-enable`, `owl-template-files` and `owl-template-src`;
/// `owl-template-dest` is optional.
pub open spec fn template_wanted(labels: Map<Seq<char>, Seq<char>>) -> bool {
    &&& labels.contains_key("owl-template-enable"@)
    &&& labels.contains_key("owl-template-files"@)
    &&& labels.contains_key("owl-template-src"@)
}

impl OwlPlugin for Template {
    fn get_name(&self) -> (res: &'static str)
        ensures
            res@ == "Template"@,
    {
        "Template"
    }

    fn should_process(&self, labels: &ContainerLabels) -> (res: bool)
        ensures
            res == template_wanted(labels@),
    {
        labels.contains_key("owl-template-enable") && labels.contains_key("owl-template-files")
            && labels.contains_key("owl-template-src")
    }
}

} // verus!

verus! {

/// There is one template per word of the file list, in the order of the
/// list: the i-th template is named by the i-th word and read from that
/// name joined to the source directory.
pub proof fn law_one_template_per_word(src: Seq<char>, files: Seq<char>)
    ensures
        spec_template_files(src, files).len() == words(files).len(),
        forall|i: int|
            0 <= i < words(files).len() ==> {
                &&& (#[trigger] spec_template_files(src, files)[i]).1 == words(files)[i]
                &&& spec_template_files(src, files)[i].0 == join_path(src, words(files)[i])
            },
{
}

/// The templates of two file lists joined by whitespace are those of the
/// first list followed by those of the second.
pub proof fn law_templates_of_joined_lists(src: Seq<char>, s: Seq<char>, sep: char, t: Seq<char>)
    requires
        is_white_space(sep),
    ensures
        spec_template_files(src, s + seq![sep] + t) == spec_template_files(src, s)
            + spec_template_files(src, t),
{
    law_words_of_joined(s, sep, t);
    let f = |n: Seq<char>| (join_path(src, n), n);
    assert((words(s) + words(t)).map_values(f) =~= words(s).map_values(f) + words(t).map_values(
        f,
    ));
}

/// Whether the template plugin runs depends on its three labels alone:
/// setting `owl-template-enable`, `owl-template-files` and `owl-template-src`
/// selects it, and setting any other label, `owl-template-dest` included,
/// changes nothing.
pub proof fn law_template_runs_on_its_labels(
    labels: Map<Seq<char>, Seq<char>>,
    k: Seq<char>,
    v: Seq<char>,
)
    ensures
        !template_wanted(Map::empty()),
        template_wanted(
            labels.insert("owl-template-enable"@, v).insert("owl-template-files"@, v).insert(
                "owl-template-src"@,
                v,
            ),
        ),
        k != "owl-template-enable"@ && k != "owl-template-files"@ && k != "owl-template-src"@
            ==> template_wanted(labels.insert(k, v)) == template_wanted(labels),
{
}

} // verus!
