use eureka::application::{Application, CallContext, Dispatch, Handler};
use eureka::lightclient::LightClient;
use eureka::lightclient_dummy::Contract as DummyClient;
use eureka::packet::{Packet, PacketHeader, Payload, PayloadHeader};
use eureka::pingpong::{AppError, Contract as PingPong};
use eureka::tao::Contract as Tao;
use eureka::types::Addr;

const NOW: u64 = 1_571_797_419;

/// One chain with an engine, two light clients and two applications. A
/// call that fails anywhere leaves the chain as it was.
struct Chain {
    tao_addr: Addr,
    tao: Tao,
    lightclient_1: (Addr, DummyClient),
    lightclient_2: (Addr, DummyClient),
    application_1: (Addr, PingPong),
    application_2: (Addr, PingPong),
}

impl Chain {
    fn context(&self, sender: &Addr, contract: &Addr) -> CallContext {
        CallContext::new(sender.clone(), vec![], NOW, contract.clone())
    }

    fn run(&mut self, queued: Vec<Dispatch>) -> Result<(), AppError> {
        for dispatch in queued {
            let ctx = self.context(&self.tao_addr, &dispatch.application);
            let app = if dispatch.application == self.application_1.0 {
                &mut self.application_1.1
            } else {
                &mut self.application_2.1
            };
            match dispatch.handler {
                Handler::Send => app.send(
                    &ctx,
                    dispatch.lightclient_local,
                    dispatch.lightclient_remote,
                    dispatch.application_remote,
                    dispatch.data,
                    dispatch.caller,
                )?,
                Handler::Receive => app.receive(
                    &ctx,
                    dispatch.lightclient_local,
                    dispatch.lightclient_remote,
                    dispatch.application_remote,
                    dispatch.data,
                    dispatch.caller,
                    dispatch.funds,
                )?,
                Handler::Timeout => app.timeout(
                    &ctx,
                    dispatch.lightclient_local,
                    dispatch.lightclient_remote,
                    dispatch.application_remote,
                    dispatch.data,
                    dispatch.caller,
                    dispatch.funds,
                )?,
            }
        }
        Ok(())
    }

    fn send_packet(&mut self, sender: &Addr, packet: Packet) -> Result<(), String> {
        let snapshot = (self.tao.clone(), self.application_1.1.clone(), self.application_2.1.clone());
        let ctx = self.context(sender, &self.tao_addr);
        let outcome = match self.tao.send_packet(&ctx, packet) {
            Ok(queued) => self.run(queued).map_err(|error| error.message()),
            Err(error) => Err(error.message()),
        };
        if outcome.is_err() {
            self.tao = snapshot.0;
            self.application_1.1 = snapshot.1;
            self.application_2.1 = snapshot.2;
        }
        outcome
    }

    fn receive_packet(
        &mut self,
        sender: &Addr,
        packet: Packet,
        height: u64,
        proof: Vec<u8>,
    ) -> Result<(), String> {
        let snapshot = (self.tao.clone(), self.application_1.1.clone(), self.application_2.1.clone());
        let ctx = self.context(sender, &self.tao_addr);
        let received = if packet.header.lightclient_source.0 == self.lightclient_1.0 {
            self.tao.receive_packet(&ctx, &self.lightclient_1.1, packet, height, proof)
        } else {
            self.tao.receive_packet(&ctx, &self.lightclient_2.1, packet, height, proof)
        };
        let outcome = match received {
            Ok(queued) => self.run(queued).map_err(|error| error.message()),
            Err(error) => Err(error.message()),
        };
        if outcome.is_err() {
            self.tao = snapshot.0;
            self.application_1.1 = snapshot.1;
            self.application_2.1 = snapshot.2;
        }
        outcome
    }
}

#[test]
fn test_ibc_eureka_cw() {
    let alice = Addr::unchecked("alice");
    let hacker = Addr::unchecked("hacker");

    let tao_addr = Addr::unchecked("contract0");
    let tao = Tao::new();

    let mut lightclient_1 = DummyClient::new();
    lightclient_1.instantiate(vec![], vec![]);
    lightclient_1.update(vec![]).unwrap();

    let mut lightclient_2 = DummyClient::new();
    lightclient_2.instantiate(vec![], vec![]);
    lightclient_2.update(vec![]).unwrap();

    let application_1_addr = Addr::unchecked("contract3");
    let application_2_addr = Addr::unchecked("contract4");
    let instantiate = CallContext::new(alice.clone(), vec![], NOW, application_1_addr.clone());
    let mut application_1 = PingPong::new();
    application_1.instantiate(&instantiate, tao_addr.clone());
    let mut application_2 = PingPong::new();
    application_2.instantiate(&instantiate, tao_addr.clone());

    let mut chain = Chain {
        tao_addr: tao_addr.clone(),
        tao,
        lightclient_1: (Addr::unchecked("contract1"), lightclient_1),
        lightclient_2: (Addr::unchecked("contract2"), lightclient_2),
        application_1: (application_1_addr, application_1),
        application_2: (application_2_addr, application_2),
    };
    let client_1 = chain.lightclient_1.0.clone();
    let client_2 = chain.lightclient_2.0.clone();
    let app_1 = chain.application_1.0.clone();
    let app_2 = chain.application_2.0.clone();

    // only contract initiator can set allowed channel

    let by_hacker = chain.context(&hacker, &app_1);
    let by_alice = chain.context(&alice, &app_1);

    chain
        .application_1
        .1
        .set_allowed_channel(&by_hacker, (client_1.clone(), vec![]), (client_2.clone(), vec![]), app_2.clone())
        .unwrap_err();

    chain
        .application_2
        .1
        .set_allowed_channel(&by_hacker, (client_2.clone(), vec![]), (client_1.clone(), vec![]), app_1.clone())
        .unwrap_err();

    chain
        .application_1
        .1
        .set_allowed_channel(&by_alice, (client_1.clone(), vec![]), (client_2.clone(), vec![]), app_2.clone())
        .unwrap();

    chain
        .application_2
        .1
        .set_allowed_channel(&by_alice, (client_2.clone(), vec![]), (client_1.clone(), vec![]), app_1.clone())
        .unwrap();

    assert_eq!(chain.application_1.1.sent_value(), "null");
    assert_eq!(chain.application_1.1.received_value(), "null");
    assert_eq!(chain.application_2.1.sent_value(), "null");
    assert_eq!(chain.application_2.1.received_value(), "null");

    let data_1_2 = "1 to 2";

    let packet_1_2 = Packet {
        header: PacketHeader {
            lightclient_source: (client_1.clone(), vec![]),
            lightclient_destination: (client_2.clone(), vec![]),
            nonce: 1,
            timeout: NOW + 10,
        },
        payloads: vec![Payload {
            header: PayloadHeader {
                application_source: app_1.clone(),
                application_destination: app_2.clone(),
                funds: vec![],
            },
            data: data_1_2.as_bytes().to_vec(),
        }],
    };

    // only alice is allowed to send packet
    chain.send_packet(&hacker, packet_1_2.clone()).unwrap_err();

    chain.send_packet(&alice, packet_1_2.clone()).unwrap();

    assert_eq!(
        chain.application_1.1.sent_value(),
        format!("{}(via {}) receives {}", app_2.as_str(), tao_addr.as_str(), data_1_2)
    );

    // anyone can relay received packet, as commitment proof is included
    chain.receive_packet(&hacker, packet_1_2, 0, vec![]).unwrap();

    assert_eq!(
        chain.application_2.1.received_value(),
        format!("{}(via {}) sent {}", app_1.as_str(), tao_addr.as_str(), data_1_2)
    );

    let data_2_1 = "2 to 1";

    let packet_2_1 = Packet {
        header: PacketHeader {
            lightclient_source: (client_2.clone(), vec![]),
            lightclient_destination: (client_1.clone(), vec![]),
            nonce: 1,
            timeout: NOW + 10,
        },
        payloads: vec![Payload {
            header: PayloadHeader {
                application_source: app_2.clone(),
                application_destination: app_1.clone(),
                funds: vec![],
            },
            data: data_2_1.as_bytes().to_vec(),
        }],
    };

    // only alice is allowed to send packet
    chain.send_packet(&hacker, packet_2_1.clone()).unwrap_err();

    chain.send_packet(&alice, packet_2_1.clone()).unwrap();

    assert_eq!(
        chain.application_2.1.sent_value(),
        format!("{}(via {}) receives {}", app_1.as_str(), tao_addr.as_str(), data_2_1)
    );

    // anyone can relay received packet, as commitment proof is included
    chain.receive_packet(&hacker, packet_2_1, 0, vec![]).unwrap();

    assert_eq!(
        chain.application_1.1.received_value(),
        format!("{}(via {}) sent {}", app_2.as_str(), tao_addr.as_str(), data_2_1)
    );
}
