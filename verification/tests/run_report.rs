use smart_tags::errors::TagError;
use smart_tags::handle::TagFormat;
use smart_tags::listing::get_id3;
use smart_tags::codec_id3::Id3Handle;
use smart_tags::codec_mp4::Mp4Handle;
use smart_tags::handle::CommonTag;
use smart_tags::plan::{BatchPlan, FileEntry, TrackPlanEntry};
use smart_tags::run::{execute_plan, run_confirmed};

fn plan_of_missing_files() -> BatchPlan {
    BatchPlan {
        entries: vec![
            TrackPlanEntry {
                path: "no_such_dir_report/2-intro.mp3".to_owned(),
                name: "2-intro.mp3".to_owned(),
                format: TagFormat::Mp3,
                track: 2,
            },
            TrackPlanEntry {
                path: "no_such_dir_report/10-outro.m4a".to_owned(),
                name: "10-outro.m4a".to_owned(),
                format: TagFormat::M4a,
                track: 10,
            },
        ],
    }
}

#[test]
fn progress_counter_counts_every_item_down() {
    // Both targets are unwritable, so both outcomes fail; the counter is
    // still decremented exactly once per attempted file and ends at zero.
    let plan = plan_of_missing_files();
    let report = execute_plan(&plan, "Ada", "Demo");
    assert_eq!(report.outcomes.len(), 2);
    assert_eq!(report.progress.remaining(), 0);
}

#[test]
fn outcomes_name_their_paths_in_plan_order() {
    let plan = plan_of_missing_files();
    let report = execute_plan(&plan, "Ada", "Demo");
    assert_eq!(report.outcomes[0].path, "no_such_dir_report/2-intro.mp3");
    assert_eq!(report.outcomes[1].path, "no_such_dir_report/10-outro.m4a");
}

#[test]
fn unwritable_targets_are_reported_not_hidden() {
    let plan = plan_of_missing_files();
    let report = execute_plan(&plan, "Ada", "Demo");
    for outcome in &report.outcomes {
        match &outcome.result {
            Ok(_) => panic!("a write to a missing file cannot succeed"),
            Err(TagError::TagWrite { path, .. }) => assert_eq!(path, &outcome.path),
            Err(e) => panic!("unexpected error kind: {:?}", e),
        }
    }
}

#[test]
fn confirmed_run_produces_a_report() {
    let plan = plan_of_missing_files();
    let report = run_confirmed(&plan, "y\n", "Ada", "Demo").unwrap();
    assert_eq!(report.outcomes.len(), 2);
    assert_eq!(report.progress.remaining(), 0);
}

#[test]
fn empty_plan_runs_to_an_empty_report() {
    let plan = BatchPlan { entries: Vec::new() };
    let report = execute_plan(&plan, "Ada", "Demo");
    assert_eq!(report.outcomes.len(), 0);
    assert_eq!(report.progress.remaining(), 0);
}

#[test]
fn unreadable_file_reads_as_empty_handle() {
    let (h, loaded) = Id3Handle::read_from_path("no_such_dir_read/x.mp3");
    assert!(!loaded);
    assert_eq!(h.artist(), None);
    assert_eq!(h.album_artist(), None);
    assert_eq!(h.album(), None);
    assert_eq!(h.title(), None);
    let st = h.snapshot();
    assert_eq!(st.track, None);
    assert_eq!(st.disc_total, None);
    let (m, loaded_m) = Mp4Handle::read_from_path("no_such_dir_read/y.m4a");
    assert!(!loaded_m);
    assert_eq!(m.title(), None);
}

#[test]
fn listing_loads_one_handle_per_matching_file() {
    let files = vec![
        FileEntry {
            path: "no_such_dir_listing/1-a.mp3".to_owned(),
            name: "1-a.mp3".to_owned(),
            ext: Some("mp3".to_owned()),
        },
        FileEntry {
            path: "no_such_dir_listing/2-b.m4a".to_owned(),
            name: "2-b.m4a".to_owned(),
            ext: Some("m4a".to_owned()),
        },
        FileEntry {
            path: "no_such_dir_listing/3-c.mp3".to_owned(),
            name: "3-c.mp3".to_owned(),
            ext: Some("mp3".to_owned()),
        },
    ];
    let mp3s: Vec<Id3Handle> = get_id3(&files);
    assert_eq!(mp3s.len(), 2);
    // Files that could not be read yield handles with every field empty.
    assert_eq!(mp3s[0].artist(), None);
    assert_eq!(mp3s[0].title(), None);
    let m4as: Vec<Mp4Handle> = get_id3(&files);
    assert_eq!(m4as.len(), 1);
    assert_eq!(m4as[0].album(), None);
}
