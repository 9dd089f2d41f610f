use karlson::device::limit_level;
use karlson::device::read_file_val;
use karlson::device::read_file_val_or;
use karlson::device::Device;
use karlson::device::Propeller;
use karlson::device::Thermometer;
use karlson::dnv;
use karlson::dnv::nv_termometer_from;
use karlson::dnv::NvNext;
use karlson::dnv::NvStage;
use karlson::dnv::PropellerNv;
use karlson::dnv::Ran;
use karlson::dnv::ThermometerNv;
use karlson::dsys;
use karlson::dsys::is_sys;
use karlson::dsys::sort_by_id;
use karlson::dsys::sys_device_backends;
use karlson::dsys::sys_device_dir;
use karlson::dsys::sys_device_files;
use karlson::dsys::sys_device_update;
use karlson::dsys::sys_devices;
use karlson::dsys::sys_propeller_from;
use karlson::dsys::sys_termometer_from;
use karlson::dsys::PropellerSys;
use karlson::dsys::ThermometerSys;
use karlson::settings::Settings;

fn settings() -> Settings {
    Settings {
        name: None,
        dev_type: String::from("sys"),
        pwm_min: 20,
        pwm_ok: 60,
        pwm_step_up: 5,
        pwm_step_down: 2,
        temp_ok: 65,
        temp_hot: 75,
        temp_crit: 80,
        queue_size: 15,
        nv_temp_ids: vec![0, 1],
        sys_temp_files: vec![
            String::from("temp1_input"),
            String::from("temp2_input"),
            String::from("/tmp/extra"),
        ],
        sys_pwm_file: String::from("pwm1"),
    }
}

fn ran(stdout: &str) -> Result<Ran, String> {
    Ok(Ran { success: true, stdout: String::from(stdout), stderr: String::new() })
}

fn args(list: &[&str]) -> Vec<String> {
    list.iter().map(|a| String::from(*a)).collect()
}

struct Still;

impl Thermometer for Still {
    fn temp(&self) -> usize {
        1
    }
}

impl Propeller for Still {
    fn pwm(&self) -> Result<usize, String> {
        Ok(1)
    }

    fn pwm_set(&self, val: usize) -> Result<usize, String> {
        Ok(val)
    }

    fn configure(&mut self, _set: &Settings) {}
}

#[test]
fn read_file_val_reads_a_trimmed_number() {
    assert_eq!(read_file_val(Ok(String::from("128\n"))), Ok(128));
    assert_eq!(read_file_val(Ok(String::from(" +7 "))), Ok(7));
    assert_eq!(
        read_file_val(Ok(String::from("12 3\n"))),
        Err(String::from("Can not parse value 12 3\n"))
    );
    assert_eq!(read_file_val(Ok(String::new())), Err(String::from("Can not parse value ")));
    assert_eq!(read_file_val(Ok(String::from("-1"))), Err(String::from("Can not parse value -1")));
    assert_eq!(
        read_file_val(Err(String::from("entity not found"))),
        Err(String::from("entity not found"))
    );
}

#[test]
fn read_file_val_or_falls_back() {
    assert_eq!(read_file_val_or(Ok(String::from("54000\n")), 0), 54000);
    assert_eq!(read_file_val_or(Ok(String::from("warm")), 3), 3);
    assert_eq!(read_file_val_or(Ok(String::from("")), 3), 3);
    assert_eq!(read_file_val_or(Err(String::from("gone")), 9), 9);
}

#[test]
fn limit_level_keeps_a_fan_between_its_limits() {
    assert_eq!(limit_level(50, 20, 100), 50);
    assert_eq!(limit_level(10, 20, 100), 20);
    assert_eq!(limit_level(20, 20, 100), 20);
    assert_eq!(limit_level(100, 20, 100), 100);
    assert_eq!(limit_level(101, 20, 100), 100);
    assert_eq!(limit_level(90, 20, 80), 80);
    assert_eq!(limit_level(150, 20, 200), 200);
    assert_eq!(limit_level(50, 120, 100), 120);
    assert_eq!(limit_level(130, 120, 100), 100);
    assert_eq!(limit_level(0, 0, 0), 0);
}

#[test]
fn sys_create_device_reads_the_index_from_the_path() {
    let d = dsys::create_device("/sys/class/hwmon/hwmon3", Some(String::from("nct6779\n")));
    assert_eq!(d.id, 3);
    assert_eq!(d.dev_type, "sys");
    assert_eq!(d.name, "hwmon3(nct6779)");
    assert!(d.propeller.is_none());
    assert!(d.termometers.is_empty());
    assert_eq!(dsys::create_device("/sys/class/hwmon/hwmon12/", None).id, 12);
    assert_eq!(dsys::create_device("/sys/class/hwmon/hwmon12/", None).name, "hwmon12(?!?)");
    assert_eq!(dsys::create_device("/sys/class/hwmon/hwmon7 \n", None).id, 7);
    assert_eq!(dsys::create_device("/sys/class/hwmon/hwmon", None).id, -1);
    assert_eq!(dsys::create_device("/sys/class/hwmon/hwmon4/device", None).id, -1);
    assert_eq!(dsys::create_device("/sys/class/hwmon/hwmon99999999999", None).id, -1);
    assert_eq!(dsys::create_device("/sys/class/hwmon/hwmon\u{0663}", None).id, -1);
    assert_eq!(dsys::create_device("/sys/class/hwmon1/hwmon2", None).id, 2);
    assert_eq!(dsys::create_device("", Some(String::from(" x y "))).name, "ERR(x y)");
    assert_eq!(dsys::create_device("", None).id, -1);
}

#[test]
fn sys_device_id_reads_the_first_group() {
    assert_eq!(dsys::device_id(&None), -1);
    assert_eq!(dsys::device_id(&Some(vec![])), -1);
    assert_eq!(dsys::device_id(&Some(vec![Some(String::from("hwmon5"))])), -1);
    assert_eq!(
        dsys::device_id(&Some(vec![Some(String::from("hwmon5")), Some(String::from("5"))])),
        5
    );
    assert_eq!(dsys::device_id(&Some(vec![Some(String::from("hwmon5")), None])), -1);
    assert_eq!(
        dsys::device_id(&Some(vec![Some(String::from("x")), Some(String::from("five"))])),
        -1
    );
}

#[test]
fn sys_devices_come_in_the_order_of_their_indexes() {
    let listed = sys_devices(vec![
        (String::from("/sys/class/hwmon/hwmon2"), Some(String::from("b"))),
        (String::from("/sys/class/hwmon/other"), Some(String::from("first"))),
        (String::from("/sys/class/hwmon/hwmon10"), None),
        (String::from("/sys/class/hwmon/hwmon0"), Some(String::from("a"))),
        (String::from("/sys/class/hwmon/another"), Some(String::from("second"))),
        (String::from("/sys/class/hwmon/hwmon2"), Some(String::from("twin"))),
    ]);
    let ids: Vec<i32> = listed.iter().map(|d| d.id).collect();
    assert_eq!(ids, vec![-1, -1, 0, 2, 2, 10]);
    let names: Vec<&str> = listed.iter().map(|d| d.name.as_str()).collect();
    assert_eq!(
        names,
        vec!["other(first)", "another(second)", "hwmon0(a)", "hwmon2(b)", "hwmon2(twin)", "hwmon10(?!?)"]
    );
    assert!(sys_devices(Vec::new()).is_empty());
}

#[test]
fn sort_by_id_is_stable() {
    let make = |id: i32, name: &str| Device {
        id,
        dev_type: String::from("sys"),
        name: String::from(name),
        propeller: None,
        termometers: Vec::new(),
    };
    let sorted = sort_by_id(vec![make(3, "a"), make(1, "b"), make(3, "c"), make(1, "d"), make(2, "e")]);
    let seen: Vec<(i32, &str)> = sorted.iter().map(|d| (d.id, d.name.as_str())).collect();
    assert_eq!(seen, vec![(1, "b"), (1, "d"), (2, "e"), (3, "a"), (3, "c")]);
}

#[test]
fn sys_backends_come_from_existing_files() {
    assert_eq!(
        sys_termometer_from("/sys/class/hwmon/hwmon3/temp1_input", true),
        Ok(ThermometerSys { temp_file: String::from("/sys/class/hwmon/hwmon3/temp1_input") })
    );
    assert_eq!(
        sys_termometer_from("/x/temp1_input", false),
        Err(String::from("ERROR! TEMP file does not exist /x/temp1_input"))
    );
    assert_eq!(
        sys_propeller_from("/x/pwm1", true, &settings()),
        Ok(PropellerSys { pfile: String::from("/x/pwm1"), min: 20, max: 100 })
    );
    assert_eq!(
        sys_propeller_from("/x/pwm1", false, &settings()),
        Err(String::from("PWM file does not exist /x/pwm1"))
    );
}

#[test]
fn sys_device_files_lie_in_the_directory_of_the_device() {
    assert_eq!(dsys::DIR_DEVICES, "/sys/class/hwmon");
    assert_eq!(sys_device_dir(dsys::DIR_DEVICES, 3), "/sys/class/hwmon/hwmon3");
    assert_eq!(sys_device_dir(dsys::DIR_DEVICES, -1), "/sys/class/hwmon/hwmon-1");
    assert_eq!(sys_device_dir("/tmp/sensors/", 0), "/tmp/sensors/hwmon0");
    let (fan, temps) = sys_device_files(dsys::DIR_DEVICES, 3, &settings());
    assert_eq!(fan, "/sys/class/hwmon/hwmon3/pwm1");
    assert_eq!(
        temps,
        vec!["/sys/class/hwmon/hwmon3/temp1_input", "/sys/class/hwmon/hwmon3/temp2_input", "/tmp/extra"]
    );
}

#[test]
fn sys_device_backends_keep_what_was_found() {
    let root = dsys::DIR_DEVICES;
    let (fan, temps) = sys_device_backends(root, 3, &settings(), true, &vec![false, true, true]);
    assert_eq!(
        fan,
        Ok(PropellerSys { pfile: String::from("/sys/class/hwmon/hwmon3/pwm1"), min: 20, max: 100 })
    );
    assert_eq!(
        temps,
        vec![
            ThermometerSys { temp_file: String::from("/sys/class/hwmon/hwmon3/temp2_input") },
            ThermometerSys { temp_file: String::from("/tmp/extra") },
        ]
    );
    let (fan, temps) = sys_device_backends(root, 3, &settings(), false, &vec![true]);
    assert_eq!(fan, Err(String::from("PWM file does not exist /sys/class/hwmon/hwmon3/pwm1")));
    assert_eq!(
        temps,
        vec![ThermometerSys { temp_file: String::from("/sys/class/hwmon/hwmon3/temp1_input") }]
    );
    let (_, temps) = sys_device_backends(root, 3, &settings(), false, &vec![]);
    assert!(temps.is_empty());
}

#[test]
fn sys_device_update_keeps_the_fan_where_none_was_found() {
    let d = dsys::create_device("/sys/class/hwmon/hwmon3", None);
    assert!(is_sys(&d));
    let d = sys_device_update(d, None, vec![Box::new(Still), Box::new(Still)]);
    assert!(d.propeller.is_none());
    assert_eq!(d.termometers.len(), 2);
    let d = sys_device_update(d, Some(Box::new(Still)), Vec::new());
    assert!(d.propeller.is_some());
    assert!(d.termometers.is_empty());
    let d = sys_device_update(d, None, vec![Box::new(Still)]);
    assert!(d.propeller.is_some());
    assert_eq!(d.termometers.len(), 1);
    assert_eq!(d.id, 3);
    assert_eq!(d.name, "hwmon3(?!?)");
    let (nv, _, _) = dnv::create_device(0, String::from("GTX"));
    assert!(!is_sys(&nv));
}

#[test]
fn sys_propeller_is_limited_and_takes_a_new_floor() {
    let mut p = PropellerSys { pfile: String::from("/x/pwm1"), min: 20, max: 100 };
    assert_eq!(p.pwm_set(10), 20);
    assert_eq!(p.pwm_set(55), 55);
    assert_eq!(p.pwm_set(500), 100);
    let mut s = settings();
    s.pwm_min = 40;
    p.configure(&s);
    assert_eq!(p, PropellerSys { pfile: String::from("/x/pwm1"), min: 40, max: 100 });
    assert_eq!(p.pwm_set(30), 40);
}

#[test]
fn sys_thermometer_reads_thousandths() {
    let t = ThermometerSys { temp_file: String::from("/x/temp1_input") };
    assert_eq!(t.temp(Ok(String::from("54000\n"))), 54);
    assert_eq!(t.temp(Ok(String::from("54999"))), 54);
    assert_eq!(t.temp(Ok(String::from("999"))), 0);
    assert_eq!(t.temp(Ok(String::from("n/a"))), 0);
    assert_eq!(t.temp(Err(String::from("gone"))), 0);
    assert_eq!(dsys::TEMP_SCALE, 1000);
}

#[test]
fn nv_create_devices_reads_the_list_of_the_tool() {
    let out = "GPU 0: GeForce GTX 1070 (UUID: GPU-09b509f0-961c-189e-bf2e-a1fd2d999b49)
GPU 1: GeForce GTX 1060 3GB (UUID: GPU-51e5ba3b-3f42-d70b-075b-06b36565f091)
GPU 2: GeForce GTX 1060 3GB (UUID: GPU-920ff0df-2fb4-b27d-76e1-08d7e9bb4f0c)
GPU 3: GeForce GTX 1070 (UUID: GPU-beabe8a7-de7e-f455-baac-eb473505320d)  
";
    let listed = dnv::create_devices(out);
    assert_eq!(listed.len(), 4);
    let seen: Vec<(i32, &str, &str)> =
        listed.iter().map(|(d, _, _)| (d.id, d.dev_type.as_str(), d.name.as_str())).collect();
    assert_eq!(
        seen,
        vec![(0, "nv", "GTX 1070"), (1, "nv", "GTX 1060 3GB"), (2, "nv", "GTX 1060 3GB"), (3, "nv", "GTX 1070")]
    );
    for (k, (d, t, p)) in listed.iter().enumerate() {
        assert!(d.propeller.is_none());
        assert!(d.termometers.is_empty());
        assert_eq!(*t, ThermometerNv { id: k as i32 });
        assert_eq!(*p, PropellerNv { id: k as i32, min: 0, max: 100 });
    }
}

#[test]
fn nv_create_devices_skips_what_is_no_line_of_the_list() {
    assert!(dnv::create_devices("").is_empty());
    assert!(dnv::create_devices("No devices were found\n").is_empty());
    let listed = dnv::create_devices("  GPU 12: Tesla T4 (UUID: GPU-1)\nGPU x: bad (UUID: y)\n");
    assert_eq!(listed.len(), 1);
    assert_eq!(listed[0].0.id, 12);
    assert_eq!(listed[0].0.name, "Tesla T4");
    let listed = dnv::create_devices("GPU 99999999999: Big (UUID: GPU-1)");
    assert_eq!(listed.len(), 1);
    assert_eq!(listed[0].0.id, -1);
    assert_eq!(listed[0].1.id, -1);
    assert_eq!(listed[0].0.name, "Big");
}

#[test]
fn nv_devices_are_those_of_the_answer_of_the_tool() {
    assert_eq!(dnv::list_query(), args(&["--list-gpus"]));
    let listed = dnv::nv_devices(&ran("GPU 0: GeForce GTX 1070 (UUID: GPU-09b509f0)\n"));
    assert_eq!(listed.len(), 1);
    assert_eq!(listed[0].0.id, 0);
    assert_eq!(listed[0].0.name, "GTX 1070");
    assert_eq!(listed[0].2, PropellerNv { id: 0, min: 0, max: 100 });
    assert!(dnv::nv_devices(&Err(String::from("No such file or directory"))).is_empty());
    assert!(dnv::nv_devices(&ran("")).is_empty());
}

#[test]
fn nv_devices_from_reads_the_groups_of_each_match() {
    let found = vec![
        vec![
            Some(String::from("GPU 4: GeForce RTX (UUID: a)")),
            Some(String::from("4")),
            Some(String::from("GeForce ")),
            Some(String::from("RTX")),
        ],
        vec![Some(String::from("whole")), None, None, None],
        vec![Some(String::from("short"))],
    ];
    let listed = dnv::devices_from(&found);
    let seen: Vec<(i32, &str)> = listed.iter().map(|(d, _, _)| (d.id, d.name.as_str())).collect();
    assert_eq!(seen, vec![(4, "RTX"), (-1, ""), (-1, "")]);
    assert_eq!(dnv::device_id(&found[0]), 4);
    assert_eq!(dnv::device_name(&found[0]), "RTX");
}

#[test]
fn nv_termometer_from_always_succeeds() {
    assert_eq!(nv_termometer_from(2), Ok(ThermometerNv { id: 2 }));
    assert_eq!(nv_termometer_from(-5), Ok(ThermometerNv { id: -5 }));
}

#[test]
fn nv_thermometer_asks_the_tool_and_reads_its_answer() {
    let t = ThermometerNv { id: 2 };
    assert_eq!(
        t.query(),
        args(&["--query-gpu=temperature.gpu", "--format=csv,noheader", "-i", "2"])
    );
    assert_eq!(dnv::NVIDIA_SMI, "nvidia-smi");
    assert_eq!(t.temp(ran("61\n")), 61);
    assert_eq!(t.temp(ran("")), 0);
    assert_eq!(t.temp(ran("[Not Supported]")), 0);
    assert_eq!(t.temp(Err(String::from("no such file"))), 0);
}

#[test]
fn nv_propeller_reads_the_fan_state() {
    let p = PropellerNv { id: 1, min: 0, max: 100 };
    assert_eq!(p.fan_state_query(), args(&["-q", "[gpu:1]/GPUFanControlState"]));
    assert!(p.fan_state(&ran("  Attribute 'GPUFanControlState' (miner3:2[gpu:1]): 1.\n")));
    assert!(!p.fan_state(&ran("  Attribute 'GPUFanControlState' (miner3:2[gpu:1]): 0.\n")));
    assert!(!p.fan_state(&ran("  Attribute 'GPUFanControlState' (miner3:2[gpu:0]): 1.\n")));
    assert!(!p.fan_state(&ran("")));
    assert!(!p.fan_state(&Err(String::from("no tool"))));
}

#[test]
fn nv_propeller_reads_the_level() {
    let p = PropellerNv { id: 1, min: 0, max: 100 };
    assert_eq!(p.pwm_query(), args(&["--query-gpu=fan.speed", "--format=csv,noheader", "-i", "1"]));
    assert_eq!(p.pwm(ran("95 %\n")), Ok(95));
    assert_eq!(p.pwm(ran("7%")), Ok(7));
    assert_eq!(p.pwm(ran("%1%2%")), Ok(12));
    assert_eq!(p.pwm(ran("[N/A]")), Err(String::from("NV#1 Can not read  fan speed")));
    assert_eq!(p.pwm(ran("9 5 %")), Err(String::from("NV#1 Can not read  fan speed")));
    assert_eq!(
        p.pwm(Err(String::from("No such file"))),
        Err(String::from("NV#1 Can not read pwm speed. No such file"))
    );
}

#[test]
fn nv_propeller_writes_a_limited_level() {
    let p = PropellerNv { id: 3, min: 30, max: 90 };
    assert_eq!(p.level(10), 30);
    assert_eq!(p.level(95), 90);
    assert_eq!(p.level(50), 50);
    assert_eq!(p.pwm_set_command(50, true), args(&["-a", "[fan:3]/GPUTargetFanSpeed=50"]));
    assert_eq!(
        p.pwm_set_command(5, false),
        args(&["-a", "[gpu:3]/GPUFanControlState=1", "-a", "[fan:3]/GPUTargetFanSpeed=30"])
    );
    assert_eq!(p.pwm_set_command(500, true), args(&["-a", "[fan:3]/GPUTargetFanSpeed=90"]));
}

#[test]
fn nv_request_runs_through_its_stages() {
    let p = PropellerNv { id: 0, min: 0, max: 100 };
    assert_eq!(
        p.pwm_set(70),
        NvNext::Run {
            program: String::from("nvidia-settings"),
            args: args(&["-q", "[gpu:0]/GPUFanControlState"]),
            then: NvStage::FanState,
        }
    );
    assert_eq!(
        p.pwm_set_next(70, NvStage::FanState, ran("(host:0[gpu:0]): 0.")),
        NvNext::Run {
            program: String::from("nvidia-settings"),
            args: args(&["-a", "[gpu:0]/GPUFanControlState=1", "-a", "[fan:0]/GPUTargetFanSpeed=70"]),
            then: NvStage::Write,
        }
    );
    assert_eq!(
        p.pwm_set_next(70, NvStage::FanState, ran("(host:0[gpu:0]): 1.")),
        NvNext::Run {
            program: String::from("nvidia-settings"),
            args: args(&["-a", "[fan:0]/GPUTargetFanSpeed=70"]),
            then: NvStage::Write,
        }
    );
    assert_eq!(
        p.pwm_set_next(70, NvStage::FanState, Err(String::from("gone"))),
        NvNext::Run {
            program: String::from("nvidia-settings"),
            args: args(&["-a", "[gpu:0]/GPUFanControlState=1", "-a", "[fan:0]/GPUTargetFanSpeed=70"]),
            then: NvStage::Write,
        }
    );
    assert_eq!(
        p.pwm_set_next(70, NvStage::Write, ran("")),
        NvNext::Run {
            program: String::from("nvidia-smi"),
            args: args(&["--query-gpu=fan.speed", "--format=csv,noheader", "-i", "0"]),
            then: NvStage::ReadBack,
        }
    );
    assert_eq!(p.pwm_set_next(70, NvStage::ReadBack, ran("70 %\n")), NvNext::Done(Ok(70)));
    assert_eq!(p.pwm_set_next(70, NvStage::ReadBack, ran("69 %\n")), NvNext::Done(Ok(69)));
}

#[test]
fn nv_request_ends_with_the_failure_of_a_stage() {
    let p = PropellerNv { id: 0, min: 0, max: 100 };
    let failed = Ok(Ran { success: false, stdout: String::new(), stderr: String::from("denied") });
    assert_eq!(
        p.pwm_set_next(170, NvStage::Write, failed),
        NvNext::Done(Err(String::from("NV#0 Change fan fail. denied")))
    );
    assert_eq!(
        p.pwm_set_next(170, NvStage::Write, Err(String::from("gone"))),
        NvNext::Done(Err(String::from("NV#0 Can not chage fan to 100 gone")))
    );
    assert_eq!(
        p.pwm_set_next(70, NvStage::ReadBack, ran("?")),
        NvNext::Done(Err(String::from("NV#0 Can not read  fan speed")))
    );
    assert_eq!(
        p.pwm_set_next(70, NvStage::ReadBack, Err(String::from("gone"))),
        NvNext::Done(Err(String::from("NV#0 Can not read pwm speed. gone")))
    );
}

#[test]
fn nv_propeller_keeps_its_limits_under_new_settings() {
    let mut p = PropellerNv { id: 0, min: 0, max: 100 };
    p.configure(&settings());
    assert_eq!(p, PropellerNv { id: 0, min: 0, max: 100 });
}
