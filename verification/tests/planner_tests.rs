use mediadup::model::{
    CollectedMetadata, CompareMode, Entry, FileCommand, FileMetadata, ImageMetadata, ModalMetadata,
};
use mediadup::planner::build_plan;

fn image_entry(path: &str, base: &str, size: u64, date: &str, is_dest: bool) -> Entry {
    Entry {
        path: path.to_owned(),
        metadata: CollectedMetadata {
            file_metadata: FileMetadata {
                base_file_name: base.to_owned(),
                file_size: size,
                extension: "jpg".to_owned(),
                creation_date: None,
            },
            modal_metadata: ModalMetadata::Image(ImageMetadata {
                date: date.to_owned(),
                resolution: None,
                model: None,
                brightness: None,
            }),
        },
        is_dest,
    }
}

#[test]
fn matched_pair_becomes_action_and_saved_space() {
    let dests = vec![image_entry("/archive/a.jpg", "a.jpg", 1_000_000, "2023:01:01 12:00:00", true)];
    let srcs = vec![
        image_entry("/cam/a.jpg", "a.jpg", 1_000_000, "2023:01:01 12:00:00", false),
        image_entry("/cam/b.jpg", "b.jpg", 2_000_000, "2023:02:02 12:00:00", false),
    ];
    let plan = build_plan(&dests, &srcs, CompareMode::Paranoid, Some(FileCommand::Delete));
    assert_eq!(plan.actions.len(), 1);
    assert_eq!(plan.actions[0].entry.path, "/cam/a.jpg");
    assert_eq!(plan.actions[0].dest_entry.path, "/archive/a.jpg");
    assert!(matches!(plan.actions[0].action, FileCommand::Delete));
    assert_eq!(plan.saved_space, 1_000_000);
    assert_eq!(plan.duplicates, vec![(0, 0)]);
    assert!(plan.skipped.is_empty());
    assert!(plan.name_collisions.is_empty());
}

#[test]
fn without_a_command_matches_are_still_reported() {
    let dests = vec![image_entry("/archive/a.jpg", "a.jpg", 1_000_000, "2023:01:01 12:00:00", true)];
    let srcs = vec![image_entry("/cam/a.jpg", "a.jpg", 1_000_000, "2023:01:01 12:00:00", false)];
    let plan = build_plan(&dests, &srcs, CompareMode::Paranoid, None);
    assert!(plan.actions.is_empty());
    // The dry run still reports which files are duplicates.
    assert_eq!(plan.duplicates, vec![(0, 0)]);
    assert_eq!(plan.saved_space, 1_000_000);
}

#[test]
fn identical_paths_are_skipped_not_compared() {
    // The same file reached through both trees: skipped, no action, no
    // saved space.
    let dests = vec![image_entry("/tree/a.jpg", "a.jpg", 1_000_000, "2023:01:01 12:00:00", true)];
    let srcs = vec![image_entry("/tree/a.jpg", "a.jpg", 1_000_000, "2023:01:01 12:00:00", false)];
    let plan = build_plan(&dests, &srcs, CompareMode::Paranoid, Some(FileCommand::Delete));
    assert_eq!(plan.skipped, vec![(0, 0)]);
    assert!(plan.duplicates.is_empty());
    assert!(plan.actions.is_empty());
    assert_eq!(plan.saved_space, 0);
    assert!(plan.name_collisions.is_empty());
}

#[test]
fn same_name_without_match_is_recorded_as_collision() {
    // Same base name, 50% size difference: no match, one diagnostic.
    let dests = vec![image_entry("/archive/a.jpg", "a.jpg", 2_000_000, "2023:01:01 12:00:00", true)];
    let srcs = vec![image_entry("/cam/a.jpg", "a.jpg", 1_000_000, "2023:01:01 12:00:00", false)];
    let plan = build_plan(&dests, &srcs, CompareMode::Paranoid, Some(FileCommand::Delete));
    assert!(plan.actions.is_empty());
    assert_eq!(plan.saved_space, 0);
    assert_eq!(plan.name_collisions, vec![(0, 0)]);
}

#[test]
fn source_matching_two_destinations_is_counted_twice() {
    let dests = vec![
        image_entry("/archive/a.jpg", "a.jpg", 1_000_000, "2023:01:01 12:00:00", true),
        image_entry("/backup/a.jpg", "a.jpg", 1_000_000, "2023:01:01 12:00:00", true),
    ];
    let srcs = vec![image_entry("/cam/a.jpg", "a.jpg", 1_000_000, "2023:01:01 12:00:00", false)];
    let plan = build_plan(&dests, &srcs, CompareMode::Paranoid, Some(FileCommand::Delete));
    assert_eq!(plan.actions.len(), 2);
    assert_eq!(plan.duplicates, vec![(0, 0), (1, 0)]);
    assert_eq!(plan.saved_space, 2_000_000);
}

#[test]
fn order_is_destination_major() {
    let dests = vec![
        image_entry("/archive/a.jpg", "a.jpg", 1_000_000, "2023:01:01 12:00:00", true),
        image_entry("/archive/b.jpg", "b.jpg", 2_000_000, "2023:02:02 12:00:00", true),
    ];
    let srcs = vec![
        image_entry("/cam/b.jpg", "b.jpg", 2_000_000, "2023:02:02 12:00:00", false),
        image_entry("/cam/a.jpg", "a.jpg", 1_000_000, "2023:01:01 12:00:00", false),
    ];
    let plan = build_plan(&dests, &srcs, CompareMode::Paranoid, Some(FileCommand::Delete));
    assert_eq!(plan.actions.len(), 2);
    assert_eq!(plan.duplicates, vec![(0, 1), (1, 0)]);
    // First the match of the first destination, then the second's.
    assert_eq!(plan.actions[0].dest_entry.path, "/archive/a.jpg");
    assert_eq!(plan.actions[0].entry.path, "/cam/a.jpg");
    assert_eq!(plan.actions[1].dest_entry.path, "/archive/b.jpg");
    assert_eq!(plan.actions[1].entry.path, "/cam/b.jpg");
}

#[test]
fn loose_mode_matches_across_names() {
    let dests = vec![image_entry("/archive/x.jpg", "x.jpg", 1_000_000, "2023:01:01 12:00:00", true)];
    let srcs = vec![image_entry("/cam/y.jpg", "y.jpg", 1_000_000, "2023:01:01 12:00:00", false)];
    let paranoid = build_plan(&dests, &srcs, CompareMode::Paranoid, None);
    assert_eq!(paranoid.saved_space, 0);
    assert!(paranoid.duplicates.is_empty());
    let loose = build_plan(&dests, &srcs, CompareMode::Loose, None);
    assert_eq!(loose.saved_space, 1_000_000);
    assert_eq!(loose.duplicates, vec![(0, 0)]);
}
