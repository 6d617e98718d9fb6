use crate::config::Config;
use crate::error::ProjectError;
use crate::model::project::Project;
use crate::text::TextMap;
use vstd::prelude::*;

verus! {

/// One thing to do on disk while a project is generated.
#[derive(Debug)]
pub enum Step {
    /// Create the project's directory with its parents; a directory that is there
    /// already is kept.
    CreateDirectory,
    /// Write `content` to the file `name` in the project's directory, in place of
    /// what the file held before.
    WriteFile { name: String, content: String },
}

/// A step as contracts speak of it.
pub enum StepView {
    CreateDirectory,
    WriteFile { name: Seq<char>, content: Seq<char> },
}

impl View for Step {
    type V = StepView;

    open spec fn view(&self) -> StepView {
        match self {
            Step::CreateDirectory => StepView::CreateDirectory,
            Step::WriteFile { name, content } => StepView::WriteFile {
                name: name@,
                content: content@,
            },
        }
    }
}

/// What generating a project comes to: the steps to take in order, and the template
/// error, if there is one, that ends the generation once these steps are taken.
#[derive(Debug)]
pub struct Plan {
    pub steps: Vec<Step>,
    pub failure: Option<ProjectError>,
}

/// A plan as contracts speak of it: its steps, and whether it ends in a failure.
pub struct PlanView {
    pub steps: Seq<StepView>,
    pub failed: bool,
}

/// The steps of a list as contracts speak of them.
pub open spec fn step_views(steps: Seq<Step>) -> Seq<StepView> {
    steps.map_values(|step: Step| step@)
}

impl View for Plan {
    type V = PlanView;

    open spec fn view(&self) -> PlanView {
        PlanView { steps: step_views(self.steps@), failed: self.failure is Some }
    }
}

impl Plan {
    /// A plan without steps that does not fail.
    pub fn new() -> (plan: Self)
        ensures
            plan@.steps == Seq::<StepView>::empty(),
            !plan@.failed,
    {
        let plan = Plan { steps: Vec::new(), failure: None };
        proof {
            assert(step_views(plan.steps@) == Seq::<StepView>::empty());
        }
        plan
    }

    /// Adds a step behind the others.
    pub fn push(&mut self, step: Step)
        ensures
            final(self)@.steps == old(self)@.steps.push(step@),
            final(self).failure == old(self).failure,
    {
        proof {
            assert(step_views(self.steps@.push(step)) == step_views(self.steps@).push(step@));
        }
        self.steps.push(step);
    }

    /// Adds the steps of `steps`, in order, behind the others.
    pub fn append(&mut self, steps: Vec<Step>)
        ensures
            final(self)@.steps == old(self)@.steps + step_views(steps@),
            final(self).failure == old(self).failure,
    {
        let mut steps = steps;
        proof {
            assert(step_views(self.steps@ + steps@) == step_views(self.steps@) + step_views(steps@));
        }
        self.steps.append(&mut steps);
    }

    /// Ends the plan with `error`.
    pub fn fail(&mut self, error: ProjectError)
        ensures
            final(self)@.steps == old(self)@.steps,
            final(self).failure == Some(error),
    {
        self.failure = Some(error);
    }
}

/// Where the carrying out of a plan stands: at a step that is to be taken next, or at
/// its end with the result of the whole.
#[derive(Debug)]
pub enum Progress {
    /// The step at this place of the plan is to be taken next.
    Step(Plan, usize),
    /// No step is left: generation succeeded, or failed with this error.
    Done(Result<(), ProjectError>),
}

impl Plan {
    /// What the plan comes to once all its steps are taken: its failure, if it has
    /// one, follows the steps.
    pub open spec fn conclusion(self) -> Result<(), ProjectError> {
        match self.failure {
            Some(error) => Err(error),
            None => Ok(()),
        }
    }

    /// Where the plan stands before the step at `index`: at that step, or at its end
    /// where no step is left.
    pub open spec fn at(self, index: int) -> Progress {
        if 0 <= index < self.steps@.len() {
            Progress::Step(self, index as usize)
        } else {
            Progress::Done(self.conclusion())
        }
    }

    /// Begins to carry out the plan: at its first step, or at its end where it has
    /// no step.
    pub fn begin(self) -> (progress: Progress)
        ensures
            progress == self.at(0),
    {
        if self.steps.len() > 0 {
            Progress::Step(self, 0)
        } else {
            self.conclude()
        }
    }

    /// Goes on after the step at `index` was taken, given how that went. A step that
    /// failed ends the plan with its error: no later step is taken, and what was
    /// written before stays. Else the next step follows, and after the last step
    /// the plan's own failure, if it has one.
    pub fn after_step(self, index: usize, outcome: Result<(), ProjectError>) -> (progress: Progress)
        ensures
            match outcome {
                Err(error) => progress == Progress::Done(Err(error)),
                Ok(()) => progress == self.at(index + 1),
            },
    {
        match outcome {
            Err(error) => Progress::Done(Err(error)),
            Ok(()) => {
                if self.steps.len() > 0 && index < self.steps.len() - 1 {
                    Progress::Step(self, index + 1)
                } else {
                    self.conclude()
                }
            },
        }
    }

    /// The end of the plan.
    fn conclude(self) -> (progress: Progress)
        ensures
            progress == Progress::Done(self.conclusion()),
    {
        match self.failure {
            Some(error) => Progress::Done(Err(error)),
            None => Progress::Done(Ok(())),
        }
    }
}

/// The files that the steps of a list write, each under its name with the content
/// of the last step that writes it.
pub open spec fn written(steps: Seq<StepView>) -> TextMap
    decreases steps.len(),
{
    if steps.len() == 0 {
        Map::empty()
    } else {
        match steps.last() {
            StepView::CreateDirectory => written(steps.drop_last()),
            StepView::WriteFile { name, content } => written(steps.drop_last()).insert(
                name,
                content,
            ),
        }
    }
}

/// What a directory holds once the steps of a list are taken in order. A directory
/// is the files in it by name, or `None` where it does not exist. Creating the
/// directory keeps what is there; writing a file replaces what the file held, and
/// does nothing where there is no directory.
pub open spec fn carried_out(steps: Seq<StepView>, directory: Option<TextMap>) -> Option<TextMap>
    decreases steps.len(),
{
    if steps.len() == 0 {
        directory
    } else {
        let before = carried_out(steps.drop_last(), directory);
        match steps.last() {
            StepView::CreateDirectory => match before {
                Some(files) => Some(files),
                None => Some(Map::empty()),
            },
            StepView::WriteFile { name, content } => match before {
                Some(files) => Some(files.insert(name, content)),
                None => None,
            },
        }
    }
}

/// In a directory that exists, taking steps leaves the files that were there, but
/// for those that the steps write.
pub proof fn lemma_carried_out_in_directory(steps: Seq<StepView>, files: TextMap)
    ensures
        carried_out(steps, Some(files)) == Some(files.union_prefer_right(written(steps))),
    decreases steps.len(),
{
    if steps.len() == 0 {
        assert(files.union_prefer_right(written(steps)) == files);
    } else {
        lemma_carried_out_in_directory(steps.drop_last(), files);
        let before = files.union_prefer_right(written(steps.drop_last()));
        match steps.last() {
            StepView::CreateDirectory => {},
            StepView::WriteFile { name, content } => {
                assert(before.insert(name, content) == files.union_prefer_right(written(steps)));
            },
        }
    }
}

/// Steps that begin with the directory can be taken whether the directory exists
/// or not, and taking them a second time changes nothing: what was written is
/// written over with the same content.
pub proof fn lemma_carried_out_again(steps: Seq<StepView>, directory: Option<TextMap>)
    requires
        steps.len() > 0,
        steps[0] == StepView::CreateDirectory,
    ensures
        carried_out(steps, directory) == Some(
            (match directory {
                Some(files) => files,
                None => Map::empty(),
            }).union_prefer_right(written(steps)),
        ),
        carried_out(steps, carried_out(steps, directory)) == carried_out(steps, directory),
{
    let start: TextMap = match directory {
        Some(files) => files,
        None => Map::empty(),
    };
    lemma_carried_out_from_directory(steps, directory);
    lemma_carried_out_in_directory(steps, start);
    let after = start.union_prefer_right(written(steps));
    lemma_carried_out_in_directory(steps, after);
    assert(after.union_prefer_right(written(steps)) == after);
}

/// Steps that begin with the directory do the same in no directory as in an empty
/// one.
proof fn lemma_carried_out_from_directory(steps: Seq<StepView>, directory: Option<TextMap>)
    requires
        steps.len() > 0,
        steps[0] == StepView::CreateDirectory,
    ensures
        carried_out(steps, directory) == carried_out(
            steps,
            Some(
                match directory {
                    Some(files) => files,
                    None => Map::empty(),
                },
            ),
        ),
    decreases steps.len(),
{
    let start: TextMap = match directory {
        Some(files) => files,
        None => Map::empty(),
    };
    if steps.len() == 1 {
        assert(steps.drop_last().len() == 0);
        assert(carried_out(steps.drop_last(), directory) == directory);
        assert(carried_out(steps.drop_last(), Some(start)) == Some(start));
    } else {
        assert(steps.drop_last()[0] == steps[0]);
        lemma_carried_out_from_directory(steps.drop_last(), directory);
    }
}

/// A generator of one kind of project.
pub trait ProjectGenerator {
    /// What `generate` plans for a project under a configuration.
    spec fn plan(&self, project: Project, config: Config) -> PlanView;

    /// Plans the generation of `project`: the directory and the files to write, in
    /// order. Rendering is the one thing that can fail here, so a failure is a
    /// template error; the steps before it are still to be taken.
    fn generate(&self, project: &Project, config: &Config) -> (plan: Plan)
        ensures
            plan@ == self.plan(*project, *config),
            plan.failure matches Some(error) ==> error is Template,
    ;
}

} // verus!
