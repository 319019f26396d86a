use job_schedule::calendar::Date;
use job_schedule::job::{DashID, DashJob, JobNumber, JobURL};
use job_schedule::notes::{Access, Floors, JobNotes, Tag, Tags, TearOut};

fn tag(text: &str) -> Tag {
    Tag::try_from_str(text).unwrap()
}

fn texts(tags: &Tags) -> Vec<String> {
    tags.iter().iter().map(|t| t.as_str().to_string()).collect()
}

#[test]
fn dash_id_and_links() {
    assert!(DashID::new(0).is_none());
    let id = DashID::new(40213).unwrap();
    assert_eq!(id.number(), 40213);
    assert_eq!(id.url_string(), "https://dashboard.calclosets.com/?j=40213");
    assert_eq!(id.url(), "https://dashboard.calclosets.com/?j=40213");
    assert_eq!(DashID::new(7).unwrap().to_string(), "7");
    let job = DashJob::from(id);
    assert_eq!(job.url(), "https://dashboard.calclosets.com/?j=40213");
    assert_eq!(job.notes.price, 0);
}

#[test]
fn job_numbers_and_urls() {
    assert!(JobNumber::new(0).is_none());
    let n = JobNumber::new(1_000_000_000_000).unwrap();
    assert_eq!(n.get(), 1_000_000_000_000);
    assert_eq!(JobURL::from(n).as_str(), "https://dashboard.calclosets.com/?j=1000000000000");
    assert_eq!(JobURL::from(JobNumber::new(9).unwrap()).as_str(), "https://dashboard.calclosets.com/?j=9");
}

#[test]
fn tags_from_text() {
    assert!(Tag::try_from_str("").is_none());
    assert_eq!(tag("rush").as_str(), "rush");
    assert_eq!(Tag::try_from_string(String::new()).err(), Some(String::new()));
    let t = Tag::try_from_string("vip".to_string()).unwrap();
    assert_eq!(t.as_str(), "vip");
    let ne = non_empty_string::NonEmptyString::new("garage".to_string()).unwrap();
    assert_eq!(Tag::new(ne).as_str(), "garage");
    assert!(tag("a") == tag("a"));
    assert!(tag("a") != tag("b"));
}

#[test]
fn tags_add_remove_clear() {
    let mut tags = Tags::new();
    assert!(texts(&tags).is_empty());
    tags.add(tag("rush"));
    tags.add(tag("vip"));
    tags.add(tag("rush"));
    tags.add(tag("garage"));
    assert_eq!(texts(&tags), vec!["rush", "vip", "rush", "garage"]);
    tags.remove(&tag("rush"));
    assert_eq!(texts(&tags), vec!["vip", "garage"]);
    tags.remove(&tag("absent"));
    assert_eq!(texts(&tags), vec!["vip", "garage"]);
    assert_eq!(tags.to_string(), "vip, garage, ");
    tags.clear();
    assert!(texts(&tags).is_empty());
    assert_eq!(tags.to_string(), "");
}

#[test]
fn notes_text() {
    assert!(Floors::new(0).is_none());
    assert_eq!(Floors::default().to_string(), "1st floor");
    assert_eq!(Floors::new(3).unwrap().to_string(), "3 floors");
    assert_eq!(Access::House(Floors::new(2).unwrap()).to_string(), "2 floor house");
    assert_eq!(Access::TownHouse(Floors::default()).to_string(), "1 floor townhouse");
    assert_eq!(Access::Condo("Palms".to_string()).to_string(), "Palms condo");
    assert_eq!(Access::Custom("back gate".to_string()).to_string(), "back gate");
    assert_eq!(TearOut::default().to_string(), "no tear out");
    assert_eq!(TearOut::CCSystem.to_string(), "CC tear out");
    assert_eq!(TearOut::VentilatedWood.to_string(), "ventilated wood tear out");
    assert_eq!(TearOut::Custom("shelves".to_string()).to_string(), "shelves");
    let mut notes = JobNotes::new();
    assert_eq!(notes.to_string(), "$0, 0 spaces, 1 floor house, no tear out");
    notes.tags.add(tag("rush"));
    notes.price = 4500;
    notes.spaces = 3;
    notes.tear_out = TearOut::Wire;
    assert_eq!(notes.to_string(), "rush, $4500, 3 spaces, 1 floor house, wire tear out");
    let job = DashJob { id: DashID::new(12).unwrap(), notes };
    assert_eq!(job.to_string(), "12: rush, $4500, 3 spaces, 1 floor house, wire tear out");
}

#[test]
fn pipeline_keeps_what_each_step_recorded() {
    let d = |m: u32, day: u32| Date::from_ymd(2024, m, day).unwrap();
    let job = DashJob::from(DashID::new(5).unwrap());
    let pending = job.request_schedule(d(1, 2));
    assert_eq!(pending.due, d(1, 2));
    let paperwork = pending.schedule(d(3, 1), d(1, 10));
    assert_eq!(paperwork.install, d(3, 1));
    assert_eq!(paperwork.due, d(1, 10));
    let folder = paperwork.turn_in(d(1, 9), d(1, 20));
    assert_eq!(folder.paperwork, d(1, 9));
    let order = folder.make(d(1, 18), d(2, 1));
    assert_eq!(order.folder, d(1, 18));
    let back = order.clone().remove_folder(d(1, 25));
    assert_eq!(back.due, d(1, 25));
    assert_eq!(back.paperwork, d(1, 9));
    let again = back.remove_paperwork(d(1, 30));
    assert_eq!(again.install, d(3, 1));
    assert_eq!(again.remove_install().id.number(), 5);
    let ready = order.order(d(1, 31));
    assert_eq!(ready.install, d(3, 1));
    assert_eq!(ready.paperwork, d(1, 9));
    assert_eq!(ready.folder, d(1, 18));
    assert_eq!(ready.order, d(1, 31));
    assert_eq!(ready.job.id.number(), 5);
}
