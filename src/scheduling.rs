//! The paperwork pipeline of a job: schedule requested, paperwork pending,
//! folder pending, order pending, ready. Each stage holds what the earlier
//! ones recorded and the due date of its own step.
use vstd::prelude::*;

use crate::calendar::Date;
use crate::job::DashJob;

verus! {

/// A job waiting to be scheduled.
#[derive(Debug, Clone)]
pub struct PendingSchedule {
    pub job: DashJob,
    pub due: Date,
}

/// A scheduled job waiting for its paperwork.
#[derive(Debug, Clone)]
pub struct PendingPaperwork {
    pub job: DashJob,
    pub install: Date,
    pub due: Date,
}

/// A job whose paperwork is in, waiting for its folder.
#[derive(Debug, Clone)]
pub struct PendingFolder {
    pub job: DashJob,
    pub install: Date,
    pub paperwork: Date,
    pub due: Date,
}

/// A job whose folder is made, waiting for its order.
#[derive(Debug, Clone)]
pub struct PendingOrder {
    pub job: DashJob,
    pub install: Date,
    pub paperwork: Date,
    pub folder: Date,
    pub due: Date,
}

/// A job with every step done.
#[derive(Debug, Clone)]
pub struct Ready {
    pub job: DashJob,
    pub install: Date,
    pub paperwork: Date,
    pub folder: Date,
    pub order: Date,
}

impl DashJob {
    /// Asks for the job to be scheduled by `schedule_due`.
    pub fn request_schedule(self, schedule_due: Date) -> (r: PendingSchedule)
        ensures
            r.job == self,
            r.due == schedule_due,
    {
        PendingSchedule { job: self, due: schedule_due }
    }
}

impl PendingSchedule {
    /// Schedules the install; the paperwork is due by `paperwork_due`.
    pub fn schedule(self, install: Date, paperwork_due: Date) -> (r: PendingPaperwork)
        ensures
            r.job == self.job,
            r.install == install,
            r.due == paperwork_due,
    {
        PendingPaperwork { job: self.job, install, due: paperwork_due }
    }

    /// Withdraws the request.
    pub fn remove_request(self) -> (r: DashJob)
        ensures
            r == self.job,
    {
        self.job
    }
}

impl PendingPaperwork {
    /// Records the paperwork as turned in; the folder is due by `folder_due`.
    pub fn turn_in(self, turned_in: Date, folder_due: Date) -> (r: PendingFolder)
        ensures
            r.job == self.job,
            r.install == self.install,
            r.paperwork == turned_in,
            r.due == folder_due,
    {
        PendingFolder { job: self.job, install: self.install, paperwork: turned_in, due: folder_due }
    }

    /// Takes the install off the schedule.
    pub fn remove_install(self) -> (r: DashJob)
        ensures
            r == self.job,
    {
        self.job
    }
}

impl PendingFolder {
    /// Records the folder as made; the order is due by `order_due`.
    pub fn make(self, made: Date, order_due: Date) -> (r: PendingOrder)
        ensures
            r.job == self.job,
            r.install == self.install,
            r.paperwork == self.paperwork,
            r.folder == made,
            r.due == order_due,
    {
        PendingOrder {
            job: self.job,
            install: self.install,
            paperwork: self.paperwork,
            folder: made,
            due: order_due,
        }
    }

    /// Sends the job back for paperwork, due by `paperwork_due`.
    pub fn remove_paperwork(self, paperwork_due: Date) -> (r: PendingPaperwork)
        ensures
            r.job == self.job,
            r.install == self.install,
            r.due == paperwork_due,
    {
        PendingPaperwork { job: self.job, install: self.install, due: paperwork_due }
    }
}

impl PendingOrder {
    /// Records the order as placed.
    pub fn order(self, placed: Date) -> (r: Ready)
        ensures
            r.job == self.job,
            r.install == self.install,
            r.paperwork == self.paperwork,
            r.folder == self.folder,
            r.order == placed,
    {
        Ready {
            job: self.job,
            install: self.install,
            paperwork: self.paperwork,
            folder: self.folder,
            order: placed,
        }
    }

    /// Sends the job back for its folder, due by `folder_due`.
    pub fn remove_folder(self, folder_due: Date) -> (r: PendingFolder)
        ensures
            r.job == self.job,
            r.install == self.install,
            r.paperwork == self.paperwork,
            r.due == folder_due,
    {
        PendingFolder {
            job: self.job,
            install: self.install,
            paperwork: self.paperwork,
            due: folder_due,
        }
    }
}

} // verus!
