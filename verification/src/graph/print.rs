//! What it takes to have a graph drawn: the files, the renderer and its
//! arguments. The renderer is run as
//! `<renderer> <format argument> <DOT file> <output argument> <image file>`.

use crate::graph::graph::GraphVizDiGraph;
use crate::text::views_of;
use crate::traits::{DotTranslatable, GraphVizOutputFormat};
use vstd::prelude::*;

verus! {

/// All that is needed to write a graph to a file and to have the renderer
/// turn that file into an image. Paths are given by their components.
pub struct DotPrintJob {
    /// The file that the DOT text is written to.
    pub dot_file_path: Vec<String>,
    /// The DOT text.
    pub dot_file_content: String,
    /// The file that the renderer writes the image to.
    pub image_file_path: Vec<String>,
    /// The program that renders.
    pub renderer: String,
    /// The argument that tells the renderer the format of the image.
    pub command_format_argument: String,
    /// The argument that goes before the path of the image.
    pub command_output_argument: String,
}

/// `name` with a point and `extension` after it.
pub open spec fn file_name(name: Seq<char>, extension: Seq<char>) -> Seq<char> {
    name + "."@ + extension
}

/// The path of the file called `name` in the folder.
fn file_in_folder(parent_folder_path: &[String], name: String) -> (path: Vec<String>)
    ensures
        views_of(path@) == views_of(parent_folder_path@).push(name@),
{
    let mut path: Vec<String> = Vec::new();
    let mut i: usize = 0;
    while i < parent_folder_path.len()
        invariant
            0 <= i <= parent_folder_path.len(),
            views_of(path@) == views_of(parent_folder_path@).take(i as int),
        decreases parent_folder_path.len() - i,
    {
        let ghost before = views_of(path@);
        path.push(parent_folder_path[i].clone());
        assert(views_of(path@) =~= before.push(parent_folder_path[i as int]@));
        assert(views_of(parent_folder_path@).take(i + 1) =~= before.push(
            parent_folder_path[i as int]@,
        ));
        i = i + 1;
    }
    assert(views_of(parent_folder_path@).take(i as int) == views_of(parent_folder_path@));
    let ghost before = views_of(path@);
    path.push(name);
    assert(views_of(path@) =~= before.push(name@));
    path
}

impl GraphVizDiGraph {
    /// Prepares the drawing of this graph: the DOT text goes to the file
    /// `<output_file_name>.dot` in the folder given, the image to the file of
    /// the same name with the format's extension beside it.
    pub fn print_job(
        &self,
        parent_folder_path: &[String],
        output_file_name: &str,
        output_file_format: &GraphVizOutputFormat,
    ) -> (job: DotPrintJob)
        ensures
            views_of(job.dot_file_path@) == views_of(parent_folder_path@).push(
                file_name(output_file_name@, "dot"@),
            ),
            job.dot_file_content@ == self@.dot_text(),
            views_of(job.image_file_path@) == views_of(parent_folder_path@).push(
                file_name(output_file_name@, output_file_format.name()),
            ),
            job.renderer@ == "dot"@,
            job.command_format_argument@ == output_file_format.renderer_argument(),
            job.command_output_argument@ == "-o"@,
    {
        let mut dot_file_name = String::from_str(output_file_name);
        dot_file_name.append(".");
        dot_file_name.append("dot");
        let mut image_file_name = String::from_str(output_file_name);
        image_file_name.append(".");
        image_file_name.append(output_file_format.to_string().as_str());
        DotPrintJob {
            dot_file_path: file_in_folder(parent_folder_path, dot_file_name),
            dot_file_content: self.to_dot_string(),
            image_file_path: file_in_folder(parent_folder_path, image_file_name),
            renderer: String::from_str("dot"),
            command_format_argument: String::from_str(
                output_file_format.command_format_argument(),
            ),
            command_output_argument: String::from_str("-o"),
        }
    }
}

} // verus!
