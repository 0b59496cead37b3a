//! What the upload phase is set up with once the work set is built: the
//! addresses, the credentials header and a fresh pipeline.

use crate::config::{ConfigError, PostConfig};
use crate::pipeline::UploadPipeline;
use crate::text::views;
use crate::workset::WorkSet;
use vstd::prelude::*;

verus! {

/// Everything the upload phase works from.
#[derive(Debug)]
pub struct UploadPlan {
    /// The files to upload.
    pub work_set: WorkSet,
    /// Where uploads are posted.
    pub endpoint: String,
    /// Where the closing commit is requested.
    pub commit_url: String,
    /// The `Authorization` header of every request, if any.
    pub authorization: Option<String>,
    /// Bookkeeping for the uploads, in which nothing has happened yet.
    pub pipeline: UploadPipeline,
}

impl UploadPlan {
    /// Whether this is the plan that `config` calls for over `work_set`.
    pub open spec fn fits(&self, config: PostConfig, work_set: WorkSet) -> bool {
        &&& self.work_set == work_set
        &&& self.endpoint@ == config.spec_update_endpoint()
        &&& self.commit_url@ == config.spec_commit_url()
        &&& match self.authorization {
            Some(value) => config.spec_authorization() == Some(value@),
            None => config.spec_authorization() is None,
        }
        &&& self.pipeline == UploadPipeline::fresh(
            work_set.paths@.len() as usize,
            config.concurrency,
        )
        &&& self.pipeline.wf()
    }

    /// Number of files admitted into the work set: what a run returns.
    pub fn admitted(&self) -> (n: usize)
        ensures
            n == self.pipeline.total,
    {
        self.pipeline.total
    }
}

/// Sets up the upload phase over `work_set`: one task per member, the
/// configured bound, nothing started. A configuration that does not pass
/// validation gives its error and no plan.
pub fn plan_uploads(config: &PostConfig, work_set: WorkSet) -> (r: Result<UploadPlan, ConfigError>)
    ensures
        match r {
            Ok(plan) => config.validation() is Ok && plan.fits(*config, work_set),
            Err(e) => config.validation() == Err::<(), ConfigError>(e),
        },
        work_set.wf() && r is Ok ==> r.unwrap().pipeline.total == work_set@.len(),
{
    match config.validate() {
        Err(e) => Err(e),
        Ok(_) => {
            proof {
                if work_set.wf() {
                    views(work_set.paths@).unique_seq_to_set();
                }
            }
            let total = work_set.paths.len();
            match UploadPipeline::new(total, config.concurrency) {
                // Validation has found the bound positive.
                None => Err(ConfigError::ZeroConcurrency),
                Some(pipeline) => Ok(
                    UploadPlan {
                        work_set,
                        endpoint: config.update_endpoint(),
                        commit_url: config.commit_url(),
                        authorization: config.authorization(),
                        pipeline,
                    },
                ),
            }
        },
    }
}

} // verus!
