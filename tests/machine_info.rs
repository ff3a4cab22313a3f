use kernel_fs::machine::{machine_info_from_nodes, starts_with, DtNode, RegRegion, UartInfo};

fn node(name: &str, reg: Option<Vec<RegRegion>>, irq: Option<Vec<u8>>) -> DtNode {
    DtNode { name: name.to_string(), reg, interrupts: irq }
}

fn region(start: usize, size: usize) -> RegRegion {
    RegRegion { start, size: Some(size) }
}

#[test]
fn prefix_test() {
    assert!(starts_with("memory@80000000", "memory"));
    assert!(starts_with("rtc", "rtc"));
    assert!(!starts_with("rt", "rtc"));
    assert!(!starts_with("cpu@0", "uart"));
    assert!(starts_with("x", ""));
}

#[test]
fn walk_collects_machine_layout() {
    let nodes = vec![
        node("", None, None),
        node("memory@80000000", Some(vec![region(0x8000_0000, 0x800_0000)]), None),
        node("uart@10000000", Some(vec![region(0x1000_0000, 0x100)]), Some(vec![0, 0, 0, 10])),
        node("serial@10001000", Some(vec![region(0x1000_1000, 0x100)]), Some(vec![0, 0, 1, 2])),
        node("serial@0", None, None),
        node("plic@c000000", Some(vec![region(0xc00_0000, 0x60_0000)]), None),
        node("clint@2000000", Some(vec![region(0x200_0000, 0x1_0000)]), None),
        node("rtc@101000", Some(vec![region(0x10_1000, 0x1000)]), None),
        node("virtio_mmio@10008000", Some(vec![region(0x1000_8000, 0x1000)]), None),
    ];
    let m = machine_info_from_nodes(b"riscv-virtio,qemu", 4, &nodes).unwrap();
    assert_eq!(&m.model[..17], b"riscv-virtio,qemu");
    assert!(m.model[17..].iter().all(|&b| b == 0));
    assert_eq!(m.smp, 4);
    assert_eq!(m.memory, 0x8000_0000..0x8800_0000);
    assert_eq!(m.uart_count, 2);
    assert_eq!(m.uart[0], UartInfo { base: 0x1000_0000, irq: 10 });
    assert_eq!(m.uart[1], UartInfo { base: 0x1000_1000, irq: 258 });
    assert_eq!(m.uart[2], UartInfo { base: 0, irq: 0 });
    assert_eq!(m.plic, 0xc00_0000..0xc60_0000);
    assert_eq!(m.clint, 0x200_0000..0x201_0000);
    assert_eq!(m.rtc.range, 0x10_1000..0x10_2000);
    assert_eq!(m.rtc.irq, 0xc);
}

#[test]
fn long_model_is_cut() {
    let model = [b'm'; 40];
    let m = machine_info_from_nodes(&model, 1, &vec![]).unwrap();
    assert_eq!(m.model, [b'm'; 32]);
    assert_eq!(m.memory, 0..0);
    assert_eq!(m.uart_count, 0);
}

#[test]
fn last_region_wins() {
    let nodes = vec![node("memory", Some(vec![region(0x1000, 0x10), region(0x2000, 0x20)]), None)];
    let m = machine_info_from_nodes(b"", 1, &nodes).unwrap();
    assert_eq!(m.memory, 0x2000..0x2020);
}

#[test]
fn malformed_nodes_are_rejected() {
    let no_reg = vec![node("plic@0", None, None)];
    assert!(machine_info_from_nodes(b"", 1, &no_reg).is_none());
    let no_size = vec![node("clint", Some(vec![RegRegion { start: 1, size: None }]), None)];
    assert!(machine_info_from_nodes(b"", 1, &no_size).is_none());
    let overflow = vec![node("memory", Some(vec![region(usize::MAX, 1)]), None)];
    assert!(machine_info_from_nodes(b"", 1, &overflow).is_none());
    let no_irq = vec![node("uart@0", Some(vec![region(1, 1)]), None)];
    assert!(machine_info_from_nodes(b"", 1, &no_irq).is_none());
    let short_irq = vec![node("uart@0", Some(vec![region(1, 1)]), Some(vec![1, 2]))];
    assert!(machine_info_from_nodes(b"", 1, &short_irq).is_none());
}

#[test]
fn at_most_eight_uarts() {
    let mut nodes = Vec::new();
    for i in 0..8 {
        nodes.push(node("uart", Some(vec![region(i, 1)]), Some(vec![0, 0, 0, i as u8])));
    }
    let m = machine_info_from_nodes(b"", 1, &nodes).unwrap();
    assert_eq!(m.uart_count, 8);
    assert_eq!(m.uart[7], UartInfo { base: 7, irq: 7 });
    nodes.push(node("serial", Some(vec![region(9, 1)]), Some(vec![0, 0, 0, 9])));
    assert!(machine_info_from_nodes(b"", 1, &nodes).is_none());
}
