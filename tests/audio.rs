use bishbash::audio::{plan_cue, CueError, DeviceCommand};

fn run(queue: &mut Vec<u8>, playing: &mut bool, cmds: Vec<DeviceCommand>) {
    for cmd in cmds {
        match cmd {
            DeviceCommand::ClearQueue => queue.clear(),
            DeviceCommand::Enqueue(bytes) => queue.extend(bytes),
            DeviceCommand::Resume => *playing = true,
        }
    }
}

#[test]
fn cue_clears_then_queues_then_resumes() {
    let cmds = plan_cue(Ok(vec![1, 2, 3]));
    assert_eq!(cmds.len(), 3);
    assert!(matches!(cmds[0], DeviceCommand::ClearQueue));
    assert!(matches!(&cmds[1], DeviceCommand::Enqueue(b) if *b == vec![1, 2, 3]));
    assert!(matches!(cmds[2], DeviceCommand::Resume));
}

#[test]
fn second_trigger_replaces_first() {
    let mut queue = vec![9, 9];
    let mut playing = false;
    run(&mut queue, &mut playing, plan_cue(Ok(vec![1, 2, 3, 4])));
    assert_eq!(queue, vec![1, 2, 3, 4]);
    run(&mut queue, &mut playing, plan_cue(Ok(vec![7, 8])));
    assert_eq!(queue, vec![7, 8]);
    assert!(playing);
}

#[test]
fn failed_cue_leaves_device_alone() {
    assert!(plan_cue(Err(CueError::AssetMissing)).is_empty());
    assert!(plan_cue(Err(CueError::FormatConversionFailure)).is_empty());
    let mut queue = vec![5];
    let mut playing = true;
    run(&mut queue, &mut playing, plan_cue(Err(CueError::AssetMissing)));
    assert_eq!(queue, vec![5]);
}
