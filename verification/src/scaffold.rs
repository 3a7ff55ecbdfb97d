use vstd::prelude::*;
use vstd::string::StringExecFns;

verus! {

/// What the build tool reports of the system it runs on.
#[derive(Debug)]
pub struct SystemDescription {
    pub toolchain: String,
    pub target: String,
    pub cmake_version: String,
}

/// The values that the templates of a new project are filled with.
#[derive(Debug)]
pub struct TemplateParameters {
    pub projectname: String,
    pub toolchain: String,
    pub target: String,
    pub cmake_version: String,
    pub static_build: bool,
}

/// `TemplateParameters` as plain values.
pub struct TemplateParametersView {
    pub projectname: Seq<char>,
    pub toolchain: Seq<char>,
    pub target: Seq<char>,
    pub cmake_version: Seq<char>,
    pub static_build: bool,
}

impl View for TemplateParameters {
    type V = TemplateParametersView;

    open spec fn view(&self) -> TemplateParametersView {
        TemplateParametersView {
            projectname: self.projectname@,
            toolchain: self.toolchain@,
            target: self.target@,
            cmake_version: self.cmake_version@,
            static_build: self.static_build,
        }
    }
}

/// The template parameters of the project `project_name` on the described
/// system.
pub fn template_parameters(
    project_name: &str,
    static_build: bool,
    system_description: SystemDescription,
) -> (parameters: TemplateParameters)
    ensures
        parameters@ == (TemplateParametersView {
            projectname: project_name@,
            toolchain: system_description.toolchain@,
            target: system_description.target@,
            cmake_version: system_description.cmake_version@,
            static_build,
        }),
{
    TemplateParameters {
        projectname: project_name.to_owned(),
        static_build,
        toolchain: system_description.toolchain,
        target: system_description.target,
        cmake_version: system_description.cmake_version,
    }
}

/// One thing to do on disk or on the network while a project is set up.
#[derive(Debug)]
pub enum ScaffoldStep {
    /// Create the directory.
    CreateDir { path: String },
    /// Fill the template and write the text to the target.
    RenderTemplate { template: String, target: String },
    /// Fetch the address and write what comes back to the target.
    Download { url: String, target: String },
    /// Start a repository in the directory.
    InitRepository { path: String },
}

/// A `ScaffoldStep` as plain text.
pub enum ScaffoldStepView {
    CreateDir { path: Seq<char> },
    RenderTemplate { template: Seq<char>, target: Seq<char> },
    Download { url: Seq<char>, target: Seq<char> },
    InitRepository { path: Seq<char> },
}

impl DeepView for ScaffoldStep {
    type V = ScaffoldStepView;

    open spec fn deep_view(&self) -> ScaffoldStepView {
        match self {
            ScaffoldStep::CreateDir { path } => ScaffoldStepView::CreateDir { path: path@ },
            ScaffoldStep::RenderTemplate { template, target } => ScaffoldStepView::RenderTemplate {
                template: template@,
                target: target@,
            },
            ScaffoldStep::Download { url, target } => ScaffoldStepView::Download {
                url: url@,
                target: target@,
            },
            ScaffoldStep::InitRepository { path } => ScaffoldStepView::InitRepository {
                path: path@,
            },
        }
    }
}

/// The place of `relative_path` inside the project `project_name`.
pub open spec fn project_path_spec(project_name: Seq<char>, relative_path: Seq<char>) -> Seq<
    char,
> {
    project_name + "/"@ + relative_path
}

/// The place of `relative_path` inside the project `project_name`.
pub fn project_path(project_name: &str, relative_path: &str) -> (path: String)
    ensures
        path@ == project_path_spec(project_name@, relative_path@),
{
    let mut path = project_name.to_owned();
    path.append("/");
    path.append(relative_path);
    path
}

/// Where the package manager script of a new project is fetched from.
pub open spec fn package_manager_url() -> Seq<char> {
    "https://github.com/TheLartians/CPM.cmake/releases/latest/download/CPM.cmake"@
}

/// The steps that set up the project `project_name`, in their order.
pub open spec fn scaffold_plan_spec(project_name: Seq<char>) -> Seq<ScaffoldStepView> {
    seq![
        ScaffoldStepView::CreateDir { path: project_name },
        ScaffoldStepView::RenderTemplate {
            template: "CMakeLists.txt"@,
            target: project_path_spec(project_name, "CMakeLists.txt"@),
        },
        ScaffoldStepView::CreateDir { path: project_path_spec(project_name, "src"@) },
        ScaffoldStepView::RenderTemplate {
            template: "src/main.cpp"@,
            target: project_path_spec(project_name, "src/main.cpp"@),
        },
        ScaffoldStepView::RenderTemplate {
            template: "_gitignore"@,
            target: project_path_spec(project_name, ".gitignore"@),
        },
        ScaffoldStepView::CreateDir { path: project_path_spec(project_name, "cmake"@) },
        ScaffoldStepView::Download {
            url: package_manager_url(),
            target: project_path_spec(project_name, "cmake/CPM.cmake"@),
        },
        ScaffoldStepView::InitRepository { path: project_name },
    ]
}

/// Plans the setting-up of the project `project_name`: its directories, the
/// files that are made from templates, the package manager script that is
/// fetched, and the repository that is started last.
pub fn scaffold_plan(project_name: &str) -> (steps: Vec<ScaffoldStep>)
    ensures
        steps.deep_view() == scaffold_plan_spec(project_name@),
{
    let mut steps: Vec<ScaffoldStep> = Vec::new();
    steps.push(ScaffoldStep::CreateDir { path: project_name.to_owned() });
    steps.push(
        ScaffoldStep::RenderTemplate {
            template: "CMakeLists.txt".to_owned(),
            target: project_path(project_name, "CMakeLists.txt"),
        },
    );
    steps.push(ScaffoldStep::CreateDir { path: project_path(project_name, "src") });
    steps.push(
        ScaffoldStep::RenderTemplate {
            template: "src/main.cpp".to_owned(),
            target: project_path(project_name, "src/main.cpp"),
        },
    );
    steps.push(
        ScaffoldStep::RenderTemplate {
            template: "_gitignore".to_owned(),
            target: project_path(project_name, ".gitignore"),
        },
    );
    steps.push(ScaffoldStep::CreateDir { path: project_path(project_name, "cmake") });
    steps.push(
        ScaffoldStep::Download {
            url: "https://github.com/TheLartians/CPM.cmake/releases/latest/download/CPM.cmake".to_owned(),
            target: project_path(project_name, "cmake/CPM.cmake"),
        },
    );
    steps.push(ScaffoldStep::InitRepository { path: project_name.to_owned() });
    steps
}

} // verus!
